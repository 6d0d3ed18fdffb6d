//! Authentication data: token claims, the authenticated user, and reading
//! the bearer token of a request.
use vstd::prelude::*;
use crate::error::AppError;
use crate::invite::{first_dated_second, last_dated_second, now_utc};
use crate::text::{concat2, str_eq};

verus! {

/// The claims carried by a session token.
#[derive(Debug, Clone)]
pub struct Claims {
    /// The user's id.
    pub sub: String,
    /// The user's name.
    pub username: String,
    /// Expiry, in seconds since the Unix epoch.
    pub exp: usize,
    /// Issue time, in seconds since the Unix epoch.
    pub iat: usize,
}

/// The user a request is authenticated as.
#[derive(Debug, Clone)]
pub struct AuthUser {
    pub user_id: String,
    pub username: String,
}

/// The secret that signs session tokens.
#[derive(Clone)]
pub struct JwtSecret(pub String);

/// The prefix of an `Authorization` header that carries a bearer token.
pub open spec fn bearer_prefix() -> Seq<char> {
    "Bearer "@
}

/// The token that an `Authorization` header carries: the text after
/// `Bearer `, when the header starts with that prefix.
pub open spec fn bearer_of(header: Option<&str>) -> Option<Seq<char>> {
    match header {
        Some(h) => if h@.len() >= 7 && h@.subrange(0, 7) == bearer_prefix() {
            Some(h@.subrange(7, h@.len() as int))
        } else {
            None
        },
        None => None,
    }
}

/// Reads the token of an `Authorization` header: the text after `Bearer `.
/// A missing header, or one without that prefix, is `Unauthorized`.
pub fn bearer_token(header: Option<&str>) -> (res: Result<String, AppError>)
    ensures
        match bearer_of(header) {
            Some(t) => res is Ok && res->Ok_0@ == t,
            None => res is Err && res->Err_0 is Unauthorized && res->Err_0->Unauthorized_0@
                == "Token manquant"@,
        },
{
    proof {
        reveal_strlit("Bearer ");
    }
    if let Some(h) = header {
        let len = h.unicode_len();
        if len >= 7 && str_eq(h.substring_char(0, 7), "Bearer ") {
            return Ok(h.substring_char(7, len).to_owned());
        }
    }
    Err(AppError::Unauthorized("Token manquant".to_owned()))
}

impl Claims {
    /// The user that a token with these claims authenticates.
    pub fn auth_user(&self) -> (res: AuthUser)
        ensures
            res.user_id@ == self.sub@,
            res.username@ == self.username@,
    {
        AuthUser { user_id: self.sub.clone(), username: self.username.clone() }
    }
}

/// The token that jsonwebtoken's `encode` makes with the default header
/// (HS256) for the claims `sub`, `username`, `exp` and `iat`, signed with
/// `secret`; `None` when encoding fails.
pub uninterp spec fn jwt_token_of(
    sub: Seq<char>,
    username: Seq<char>,
    exp: int,
    iat: int,
    secret: Seq<char>,
) -> Option<Seq<char>>;

/// The claims `(sub, username, exp, iat)` that jsonwebtoken's `decode` reads
/// from `token` under `secret` with the default validation less its expiry
/// check; `None` when the token is malformed, its header does not name
/// HS256, its HS256 signature does not match, its payload is not a JSON
/// object, names an audience or lacks a numeric `exp`, or the payload does not
/// hold `sub` and `username` as strings and `exp` and `iat` as unsigned
/// integers.
pub uninterp spec fn jwt_claims_of(token: Seq<char>, secret: Seq<char>) -> Option<
    (Seq<char>, Seq<char>, int, int),
>;

/// Calls `jsonwebtoken::encode` with `Header::default()` (HS256), the claims
/// object `{sub, username, exp, iat}` and `EncodingKey::from_secret`. The
/// contract names the token. It adds what the source shows: HS256 signing
/// with a secret key cannot fail (the key family matches, serializing the
/// object cannot fail, HMAC takes any key), and `decode` with the same
/// secret reads the same claims back.
#[verifier::external_body]
fn jwt_encode(sub: &str, username: &str, exp: usize, iat: usize, secret: &str) -> (res: Option<
    String,
>)
    ensures
        match res {
            Some(t) => jwt_token_of(sub@, username@, exp as int, iat as int, secret@) == Some(t@)
                && jwt_claims_of(t@, secret@) == Some((sub@, username@, exp as int, iat as int)),
            None => false,
        },
{
    let mut claims = serde_json::Map::new();
    claims.insert("sub".to_owned(), sub.into());
    claims.insert("username".to_owned(), username.into());
    claims.insert("exp".to_owned(), exp.into());
    claims.insert("iat".to_owned(), iat.into());
    let key = jsonwebtoken::EncodingKey::from_secret(secret.as_bytes());
    jsonwebtoken::encode(&jsonwebtoken::Header::default(), &claims, &key).ok()
}

/// Calls `jsonwebtoken::decode` with `DecodingKey::from_secret` and
/// `Validation::default()` with its expiry check turned off (HS256, an `exp`
/// claim still required, no audience accepted), then reads the string claims
/// `sub` and `username` and the unsigned claims `exp` and `iat` of the
/// payload. The error is the text of jsonwebtoken's error; `Ok(None)` is a
/// payload without those four claims. Without the expiry check nothing here
/// reads the clock: the claims come back exactly when the named claims are
/// there.
#[verifier::external_body]
fn jwt_decode(token: &str, secret: &str) -> (res: Result<Option<Claims>, String>)
    ensures
        match res {
            Ok(Some(c)) => jwt_claims_of(token@, secret@) == Some(
                (c.sub@, c.username@, c.exp as int, c.iat as int),
            ),
            Ok(None) => jwt_claims_of(token@, secret@) is None,
            Err(_) => jwt_claims_of(token@, secret@) is None,
        },
{
    let key = jsonwebtoken::DecodingKey::from_secret(secret.as_bytes());
    let mut validation = jsonwebtoken::Validation::default();
    validation.validate_exp = false;
    let claims = jsonwebtoken::decode::<serde_json::Value>(token, &key, &validation).map_err(|e| e.to_string())?.claims;
    let text = |k: &str| claims.get(k)?.as_str().map(str::to_owned);
    let num = |k: &str| usize::try_from(claims.get(k)?.as_u64()?).ok();
    Ok(match (text("sub"), text("username"), num("exp"), num("iat")) {
        (Some(sub), Some(username), Some(exp), Some(iat)) => Some(Claims { sub, username, exp, iat }),
        _ => None,
    })
}

/// Whether the moment `t` (seconds since the epoch) has a date.
pub open spec fn dated(t: int) -> bool {
    first_dated_second() <= t <= last_dated_second()
}

/// The claims of a token issued at moment `now` to a user, valid for
/// `expiration_seconds`: issued at `now`, expiring `expiration_seconds`
/// later, both read as unsigned timestamps. `None` when the expiry has no
/// date.
pub fn claims_at(user_id: &str, username: &str, now: i64, expiration_seconds: i64) -> (res: Option<
    Claims,
>)
    ensures
        match res {
            Some(c) => dated(now + expiration_seconds) && c.sub@ == user_id@ && c.username@
                == username@ && c.exp == (now + expiration_seconds) as usize && c.iat == now as usize,
            None => !dated(now + expiration_seconds),
        },
{
    match now.checked_add(expiration_seconds) {
        Some(exp) => {
            if exp < -8334601228800i64 || exp > 8210266876799i64 {
                None
            } else {
                Some(
                    Claims {
                        sub: user_id.to_owned(),
                        username: username.to_owned(),
                        exp: exp as usize,
                        iat: now as usize,
                    },
                )
            }
        },
        None => None,
    }
}

/// Issues a token for a user, valid `expiration_seconds` from now, signed
/// with `secret`. The token carries the user's id and name, the moment the
/// clock gave as issue time and that moment plus `expiration_seconds` as
/// expiry; it fails only when that expiry has no date.
pub fn create_token(user_id: &str, username: &str, secret: &str, expiration_seconds: i64) -> (res:
    Result<String, AppError>)
    ensures
        exists|now: i64|
            0 <= now <= last_dated_second() && match res {
                Ok(t) => dated(now + expiration_seconds) && #[trigger] jwt_token_of(
                    user_id@,
                    username@,
                    ((now + expiration_seconds) as usize) as int,
                    (now as usize) as int,
                    secret@,
                ) == Some(t@) && jwt_claims_of(t@, secret@) == Some(
                    (user_id@, username@, ((now + expiration_seconds) as usize) as int, (now as usize) as int),
                ),
                Err(e) => !dated(now + expiration_seconds) && e is Internal && e->Internal_0@
                    == "Erreur de création du token : date hors de portée"@,
            },
        first_dated_second() <= expiration_seconds <= 0 ==> res is Ok,
{
    let (now, _) = now_utc();
    let ghost exp_claim = ((now + expiration_seconds) as usize) as int;
    let res = match claims_at(user_id, username, now, expiration_seconds) {
        Some(c) => {
            assert(c.exp as int == exp_claim);
            match jwt_encode(c.sub.as_str(), c.username.as_str(), c.exp, c.iat, secret) {
                Some(t) => {
                    assert(jwt_token_of(user_id@, username@, exp_claim, (now as usize) as int, secret@) == Some(t@));
                    Ok(t)
                },
                None => Err(AppError::Internal("Erreur de création du token".to_owned())),
            }
        },
        None => Err(AppError::Internal("Erreur de création du token : date hors de portée".to_owned())),
    };
    assert(0 <= now <= last_dated_second() && match res {
        Ok(t) => dated(now + expiration_seconds) && jwt_token_of(
            user_id@,
            username@,
            ((now + expiration_seconds) as usize) as int,
            (now as usize) as int,
            secret@,
        ) == Some(t@) && jwt_claims_of(t@, secret@) == Some(
            (user_id@, username@, ((now + expiration_seconds) as usize) as int, (now as usize) as int),
        ),
        Err(e) => !dated(now + expiration_seconds) && e is Internal && e->Internal_0@
            == "Erreur de création du token : date hors de portée"@,
    });
    res
}

/// Whether a token expiring at `exp` has expired at moment `now`: past its
/// expiry by more than jsonwebtoken's default leeway of 60 seconds.
pub open spec fn token_expired(exp: int, now: int) -> bool {
    exp + 60 < now
}

/// What validating a token whose claims read as `claims` answers at moment
/// `now`: a token without readable claims is refused; an expired one is
/// refused with `ExpiredSignature`; any other is accepted with its claims.
pub open spec fn validated_at(
    claims: Option<(Seq<char>, Seq<char>, int, int)>,
    now: int,
    res: Result<Claims, AppError>,
) -> bool {
    match claims {
        Some(cl) => if token_expired(cl.2, now) {
            res matches Err(e) && e is Unauthorized && e->Unauthorized_0@
                == "Erreur JWT : ExpiredSignature"@
        } else {
            res matches Ok(c) && c.sub@ == cl.0 && c.username@ == cl.1 && c.exp as int == cl.2
                && c.iat as int == cl.3
        },
        None => res is Err,
    }
}

/// Judges the expiry of a token's claims at moment `now` (seconds since the
/// epoch): they are accepted unless `now` is past their expiry by more than
/// the 60 seconds of leeway, in which case the answer is `ExpiredSignature`.
pub fn check_expiry(claims: Claims, now: i64) -> (res: Result<Claims, AppError>)
    ensures
        res is Ok <==> claims.exp + 60 >= now,
        res matches Ok(c) ==> c == claims,
        validated_at(
            Some((claims.sub@, claims.username@, claims.exp as int, claims.iat as int)),
            now as int,
            res,
        ),
{
    proof {
        reveal_strlit("Erreur JWT : ");
        reveal_strlit("ExpiredSignature");
        reveal_strlit("Erreur JWT : ExpiredSignature");
        assert("Erreur JWT : "@ + "ExpiredSignature"@ =~= "Erreur JWT : ExpiredSignature"@);
    }
    if (claims.exp as i128) + 60 < (now as i128) {
        Err(AppError::Unauthorized(concat2("Erreur JWT : ", "ExpiredSignature")))
    } else {
        Ok(claims)
    }
}

/// Checks a token's signature and expiry under `secret` and returns its
/// claims. Claims returned are those the token carries; a token whose
/// claims do not read is refused, an expired one too, and every refusal is
/// `Unauthorized`. Expiry is judged at the moment the clock gives.
pub fn validate_token(token: &str, secret: &str) -> (res: Result<Claims, AppError>)
    ensures
        res matches Ok(c) ==> jwt_claims_of(token@, secret@) == Some(
            (c.sub@, c.username@, c.exp as int, c.iat as int),
        ),
        jwt_claims_of(token@, secret@) is None ==> res is Err,
        res matches Err(e) ==> e is Unauthorized && e->Unauthorized_0@.len() >= 13
            && e->Unauthorized_0@.subrange(0, 13) == "Erreur JWT : "@,
        exists|now: int|
            0 <= now <= last_dated_second() && #[trigger] validated_at(
                jwt_claims_of(token@, secret@),
                now,
                res,
            ),
{
    proof {
        reveal_strlit("Erreur JWT : ");
        reveal_strlit("Erreur JWT : ExpiredSignature");
    }
    match jwt_decode(token, secret) {
        Ok(Some(c)) => {
            let (now, _) = now_utc();
            let res = check_expiry(c, now);
            assert(validated_at(jwt_claims_of(token@, secret@), now as int, res));
            res
        },
        Ok(None) => {
            let res = Err(AppError::Unauthorized(concat2("Erreur JWT : ", "revendications invalides")));
            assert(validated_at(jwt_claims_of(token@, secret@), 0, res));
            res
        },
        Err(m) => {
            let res = Err(AppError::Unauthorized(concat2("Erreur JWT : ", m.as_str())));
            assert(validated_at(jwt_claims_of(token@, secret@), 0, res));
            res
        },
    }
}

/// A token that has not expired is accepted with its claims: when its
/// claims read and the moment of validation is not past its expiry, the
/// answer is those claims.
pub proof fn law_unexpired_token_is_accepted(
    claims: Option<(Seq<char>, Seq<char>, int, int)>,
    now: int,
    res: Result<Claims, AppError>,
)
    requires
        validated_at(claims, now, res),
        claims matches Some(cl) && now <= cl.2,
    ensures
        res matches Ok(c) && claims == Some((c.sub@, c.username@, c.exp as int, c.iat as int)),
{
}

/// A token that `create_token` issued at moment `issued` for a positive
/// lifetime `expiration_seconds` is accepted, with the user's id and name,
/// by a validation under the same secret at any moment up to its expiry.
pub proof fn law_issued_token_is_accepted_until_it_expires(
    user_id: Seq<char>,
    username: Seq<char>,
    secret: Seq<char>,
    expiration_seconds: int,
    token: Seq<char>,
    issued: int,
    now: int,
    res: Result<Claims, AppError>,
)
    requires
        0 <= issued,
        0 < expiration_seconds,
        issued + expiration_seconds <= usize::MAX,
        jwt_claims_of(token, secret) == Some(
            (
                user_id,
                username,
                ((issued + expiration_seconds) as usize) as int,
                (issued as usize) as int,
            ),
        ),
        validated_at(jwt_claims_of(token, secret), now, res),
        now <= issued + expiration_seconds,
    ensures
        res matches Ok(c) && c.sub@ == user_id && c.username@ == username,
{
    law_unexpired_token_is_accepted(jwt_claims_of(token, secret), now, res);
}

/// Authenticates a request from its `Authorization` header: the bearer
/// token, validated under `secret`, names the user. A header without a
/// bearer token is `Unauthorized` with `Token manquant`; an invalid token is
/// refused as `validate_token` refuses it.
pub fn authenticate(header: Option<&str>, secret: &str) -> (res: Result<AuthUser, AppError>)
    ensures
        bearer_of(header) is None ==> res is Err && res->Err_0 is Unauthorized
            && res->Err_0->Unauthorized_0@ == "Token manquant"@,
        match res {
            Ok(u) => match bearer_of(header) {
                Some(t) => match jwt_claims_of(t, secret@) {
                    Some(c) => c.0 == u.user_id@ && c.1 == u.username@,
                    None => false,
                },
                None => false,
            },
            Err(e) => e is Unauthorized,
        },
{
    match bearer_token(header) {
        Err(e) => Err(e),
        Ok(token) => match validate_token(token.as_str(), secret) {
            Err(e) => Err(e),
            Ok(claims) => {
                let user = claims.auth_user();
                let ghost t = bearer_of(header)->0;
                assert(bearer_of(header) == Some(t));
                assert(token@ == t);
                assert(jwt_claims_of(t, secret@) == Some(
                    (user.user_id@, user.username@, claims.exp as int, claims.iat as int),
                ));
                Ok(user)
            },
        },
    }
}

} // verus!
