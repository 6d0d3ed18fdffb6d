//! Servers, their members and roles, forum posts, stickers and badges.
use vstd::prelude::*;
use crate::channel::{Category, Channel};
use crate::error::AppError;
use crate::text::trim;
use crate::text::{all_white_space, lemma_trimmed_empty};

verus! {

/// A server (a community with channels and members).
#[derive(Debug, Clone)]
pub struct Server {
    pub id: String,
    pub name: String,
    pub icon_path: Option<String>,
    pub banner_path: Option<String>,
    pub owner_id: String,
    pub created_at: String,
    pub updated_at: String,
}

/// A member of a server.
#[derive(Debug, Clone)]
pub struct ServerMember {
    pub server_id: String,
    pub user_id: String,
    pub username: String,
    pub nickname: Option<String>,
    pub avatar_path: Option<String>,
    pub status_text: String,
    pub status_emoji: String,
    pub joined_at: String,
    pub roles: Vec<String>,
}

/// A role of a server; its permissions are kept as the stored JSON text.
#[derive(Debug, Clone)]
pub struct Role {
    pub id: String,
    pub server_id: String,
    pub name: String,
    pub color: String,
    pub position: i32,
    pub permissions: String,
    pub is_default: bool,
    pub created_at: String,
}

/// Request body to create a server.
#[derive(Debug, Clone)]
pub struct CreateServerRequest {
    pub name: String,
}

/// Request body to update a server.
#[derive(Debug, Clone)]
pub struct UpdateServerRequest {
    pub name: Option<String>,
}

/// A server with its channels, categories, members and roles.
#[derive(Debug, Clone)]
pub struct ServerDetails {
    pub server: Server,
    pub channels: Vec<Channel>,
    pub categories: Vec<Category>,
    pub members: Vec<ServerMember>,
    pub roles: Vec<Role>,
}

/// A forum post.
#[derive(Debug, Clone)]
pub struct ForumPost {
    pub id: String,
    pub channel_id: String,
    pub author_id: String,
    pub author_username: String,
    pub author_avatar: Option<String>,
    pub title: String,
    pub content: String,
    pub reply_count: i64,
    pub created_at: String,
    pub updated_at: String,
}

/// A reply to a forum post.
#[derive(Debug, Clone)]
pub struct ForumReply {
    pub id: String,
    pub post_id: String,
    pub author_id: String,
    pub author_username: String,
    pub author_avatar: Option<String>,
    pub content: String,
    pub created_at: String,
    pub updated_at: String,
}

/// Request body to create a forum post.
#[derive(Debug, Clone)]
pub struct CreateForumPostRequest {
    pub title: String,
    pub content: String,
}

/// Request body to reply to a forum post.
#[derive(Debug, Clone)]
pub struct CreateForumReplyRequest {
    pub content: String,
}

/// A user's sticker.
#[derive(Debug, Clone)]
pub struct Sticker {
    pub id: String,
    pub owner_id: String,
    pub name: String,
    pub file_path: String,
    pub created_at: String,
}

/// A badge a server can award.
#[derive(Debug, Clone)]
pub struct Badge {
    pub id: String,
    pub server_id: String,
    pub name: String,
    pub icon_path: String,
    pub created_at: String,
}

/// A channel's permission override for one role: what it allows and what it
/// denies, each as the JSON text of a permission set.
#[derive(Debug, Clone)]
pub struct ChannelPermissionOverride {
    pub channel_id: String,
    pub role_id: String,
    pub allow: String,
    pub deny: String,
}

/// Checks the name of a new server: it must hold something other than white
/// space.
pub fn validate_server_name(name: &str) -> (res: Result<(), AppError>)
    ensures
        res is Ok <==> !all_white_space(name@),
        res is Err ==> res->Err_0 is BadRequest && res->Err_0->BadRequest_0@
            == "Le nom du serveur ne peut pas être vide"@,
{
    proof {
        lemma_trimmed_empty(name@);
    }
    if trim(name).is_empty() {
        Err(AppError::BadRequest("Le nom du serveur ne peut pas être vide".to_owned()))
    } else {
        Ok(())
    }
}

/// The owner of a server cannot leave it (it can only delete it).
pub fn check_can_leave(is_owner: bool) -> (res: Result<(), AppError>)
    ensures
        res is Ok <==> !is_owner,
        res is Err ==> res->Err_0 is BadRequest && res->Err_0->BadRequest_0@
            == "Le propriétaire ne peut pas quitter son serveur (supprimez-le à la place)"@,
{
    if is_owner {
        Err(
            AppError::BadRequest(
                "Le propriétaire ne peut pas quitter son serveur (supprimez-le à la place)".to_owned(),
            ),
        )
    } else {
        Ok(())
    }
}

/// The @everyone role of a server cannot be deleted.
pub fn check_role_deletable(is_default: bool) -> (res: Result<(), AppError>)
    ensures
        res is Ok <==> !is_default,
        res is Err ==> res->Err_0 is BadRequest && res->Err_0->BadRequest_0@
            == "Impossible de supprimer le rôle @everyone"@,
{
    if is_default {
        Err(AppError::BadRequest("Impossible de supprimer le rôle @everyone".to_owned()))
    } else {
        Ok(())
    }
}

/// A user banned from a server cannot join it through an invitation.
pub fn check_not_banned(banned: bool) -> (res: Result<(), AppError>)
    ensures
        res is Ok <==> !banned,
        res is Err ==> res->Err_0 is Forbidden && res->Err_0->Forbidden_0@
            == "Vous êtes banni de ce serveur"@,
{
    if banned {
        Err(AppError::Forbidden("Vous êtes banni de ce serveur".to_owned()))
    } else {
        Ok(())
    }
}

/// Deleting a sticker succeeds only when a sticker of that owner was removed.
pub fn check_sticker_deleted(affected: usize) -> (res: Result<(), AppError>)
    ensures
        res is Ok <==> affected > 0,
        res is Err ==> res->Err_0 is NotFound && res->Err_0->NotFound_0@
            == "Sticker introuvable ou non autorisé"@,
{
    if affected == 0 {
        Err(AppError::NotFound("Sticker introuvable ou non autorisé".to_owned()))
    } else {
        Ok(())
    }
}

/// Whether a user may befriend another: nobody can befriend themself.
pub fn check_friend_request(user_id: &str, friend_id: &str) -> (res: Result<(), AppError>)
    ensures
        res is Ok <==> user_id@ != friend_id@,
        res is Err ==> res->Err_0 is BadRequest && res->Err_0->BadRequest_0@
            == "Impossible de s'ajouter soi-même en ami"@,
{
    if crate::text::str_eq(user_id, friend_id) {
        Err(AppError::BadRequest("Impossible de s'ajouter soi-même en ami".to_owned()))
    } else {
        Ok(())
    }
}

} // verus!
