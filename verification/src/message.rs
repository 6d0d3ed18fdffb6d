//! Channel messages, direct messages and reactions.
use vstd::prelude::*;
use crate::hub::ids;
use crate::text::str_eq;

verus! {

/// A message in a channel.
#[derive(Debug, Clone)]
pub struct Message {
    pub id: String,
    pub channel_id: String,
    pub author_id: String,
    pub author_username: String,
    pub author_avatar: Option<String>,
    pub content: String,
    pub file_path: Option<String>,
    pub reply_to_id: Option<String>,
    pub edited: bool,
    pub reactions: Vec<Reaction>,
    pub created_at: String,
    pub updated_at: String,
}

/// A direct message between two users.
#[derive(Debug, Clone)]
pub struct DirectMessage {
    pub id: String,
    pub sender_id: String,
    pub sender_username: String,
    pub sender_avatar: Option<String>,
    pub receiver_id: String,
    pub content: String,
    pub file_path: Option<String>,
    pub edited: bool,
    pub created_at: String,
    pub updated_at: String,
}

/// One emoji on a message and the users who reacted with it.
#[derive(Debug, Clone)]
pub struct Reaction {
    pub emoji: String,
    pub users: Vec<String>,
}

/// Request body to send a message.
#[derive(Debug, Clone)]
pub struct SendMessageRequest {
    pub content: String,
    pub reply_to_id: Option<String>,
}

/// Request body to edit a message.
#[derive(Debug, Clone)]
pub struct EditMessageRequest {
    pub content: String,
}

/// The emojis of reaction rows `(emoji, user)`, each once, in order of first
/// appearance.
pub open spec fn first_emojis(rows: Seq<(String, String)>) -> Seq<Seq<char>>
    decreases rows.len(),
{
    if rows.len() == 0 {
        Seq::empty()
    } else {
        let p = first_emojis(rows.drop_last());
        let e = rows.last().0@;
        if p.contains(e) {
            p
        } else {
            p.push(e)
        }
    }
}

/// The users of the reaction rows with emoji `e`, in row order.
pub open spec fn users_with(rows: Seq<(String, String)>, e: Seq<char>) -> Seq<Seq<char>>
    decreases rows.len(),
{
    if rows.len() == 0 {
        Seq::empty()
    } else {
        let p = users_with(rows.drop_last(), e);
        if rows.last().0@ == e {
            p.push(rows.last().1@)
        } else {
            p
        }
    }
}

/// The emojis of a list of reactions.
pub open spec fn reaction_emojis(rs: Seq<Reaction>) -> Seq<Seq<char>> {
    rs.map_values(|r: Reaction| r.emoji@)
}

/// An emoji is among the first emojis exactly when some row carries it.
proof fn lemma_first_emojis(rows: Seq<(String, String)>, e: Seq<char>)
    ensures
        first_emojis(rows).contains(e) <==> exists|j: int| 0 <= j < rows.len() && rows[j].0@ == e,
        first_emojis(rows).no_duplicates(),
        !first_emojis(rows).contains(e) ==> users_with(rows, e) == Seq::<Seq<char>>::empty(),
    decreases rows.len(),
{
    if rows.len() > 0 {
        let pre = rows.drop_last();
        lemma_first_emojis(pre, e);
        lemma_first_emojis(pre, rows.last().0@);
        let p = first_emojis(pre);
        if exists|j: int| 0 <= j < pre.len() && pre[j].0@ == e {
            let j = choose|j: int| 0 <= j < pre.len() && pre[j].0@ == e;
            assert(rows[j] == pre[j]);
        }
        if exists|j: int| 0 <= j < rows.len() && rows[j].0@ == e {
            let j = choose|j: int| 0 <= j < rows.len() && rows[j].0@ == e;
            if j < pre.len() {
                assert(pre[j] == rows[j]);
            } else {
                assert(rows[j] == rows.last());
            }
        }
        if !p.contains(rows.last().0@) {
            assert(p.push(rows.last().0@)[p.len() as int] == rows.last().0@);
            assert forall|a: int, b: int|
                0 <= a < b < p.len() + 1 implies p.push(rows.last().0@)[a] != p.push(
                    rows.last().0@,
                )[b] by {
                if b == p.len() {
                    assert(p.push(rows.last().0@)[a] == p[a]);
                }
            }
            if p.push(rows.last().0@).contains(e) {
                let a = choose|a: int| 0 <= a < p.len() + 1 && p.push(rows.last().0@)[a] == e;
                if a < p.len() {
                    assert(p[a] == e);
                }
            }
            if p.contains(e) {
                let a = choose|a: int| 0 <= a < p.len() && p[a] == e;
                assert(p.push(rows.last().0@)[a] == e);
            }
        }
    }
}

/// The position of the reaction with emoji `emoji`, if there is one.
fn find_reaction(reactions: &Vec<Reaction>, emoji: &String) -> (res: Option<usize>)
    ensures
        match res {
            Some(i) => i < reactions@.len() && reactions@[i as int].emoji@ == emoji@,
            None => forall|j: int| 0 <= j < reactions@.len() ==> reactions@[j].emoji@ != emoji@,
        },
{
    let mut i: usize = 0;
    while i < reactions.len()
        invariant
            i <= reactions@.len(),
            forall|j: int| 0 <= j < i ==> reactions@[j].emoji@ != emoji@,
        decreases reactions@.len() - i,
    {
        if reactions[i].emoji == *emoji {
            return Some(i);
        }
        i += 1;
    }
    None
}

/// Groups reaction rows `(emoji, user)`, taken in their order, by emoji:
/// one reaction per emoji in order of first appearance, each listing the
/// users of its rows in row order.
pub fn group_reactions(rows: &[(String, String)]) -> (res: Vec<Reaction>)
    ensures
        reaction_emojis(res@) == first_emojis(rows@),
        forall|i: int|
            0 <= i < res@.len() ==> ids((#[trigger] res@[i]).users@) == users_with(
                rows@,
                res@[i].emoji@,
            ),
{
    let mut reactions: Vec<Reaction> = Vec::new();
    let mut k: usize = 0;
    while k < rows.len()
        invariant
            k <= rows@.len(),
            reaction_emojis(reactions@) == first_emojis(rows@.subrange(0, k as int)),
            forall|i: int|
                0 <= i < reactions@.len() ==> ids((#[trigger] reactions@[i]).users@) == users_with(
                    rows@.subrange(0, k as int),
                    reactions@[i].emoji@,
                ),
        decreases rows@.len() - k,
    {
        let ghost pre = rows@.subrange(0, k as int);
        let ghost next = rows@.subrange(0, k + 1);
        let ghost old_reactions = reactions@;
        proof {
            assert(next.drop_last() =~= pre);
            assert(next.last() == rows@[k as int]);
            lemma_first_emojis(pre, rows@[k as int].0@);
        }
        let emoji = &rows[k].0;
        let user = &rows[k].1;
        let found = find_reaction(&reactions, emoji);
        match found {
            Some(i) => {
                proof {
                    assert(reaction_emojis(reactions@)[i as int] == emoji@);
                    assert(first_emojis(pre).contains(emoji@));
                }
                let ghost before_users = reactions@[i as int].users@;
                reactions[i].users.push(user.clone());
                proof {
                    assert(reaction_emojis(reactions@) =~= reaction_emojis(old_reactions));
                    assert(ids(reactions@[i as int].users@) =~= ids(before_users).push(user@));
                    assert forall|j: int| 0 <= j < reactions@.len() implies ids(
                        (#[trigger] reactions@[j]).users@,
                    ) == users_with(next, reactions@[j].emoji@) by {
                        if j != i {
                            assert(reactions@[j] == old_reactions[j]);
                            assert(reaction_emojis(old_reactions)[j] != reaction_emojis(
                                old_reactions,
                            )[i as int]);
                        }
                    }
                }
            },
            None => {
                proof {
                    assert forall|j: int| 0 <= j < reaction_emojis(reactions@).len() implies reaction_emojis(
                        reactions@,
                    )[j] != emoji@ by {
                        assert(reaction_emojis(reactions@)[j] == reactions@[j].emoji@);
                    }
                    assert(!first_emojis(pre).contains(emoji@));
                    lemma_first_emojis(pre, emoji@);
                }
                let mut users: Vec<String> = Vec::new();
                users.push(user.clone());
                reactions.push(Reaction { emoji: emoji.clone(), users });
                proof {
                    assert(reaction_emojis(reactions@) =~= reaction_emojis(old_reactions).push(emoji@));
                    assert forall|j: int| 0 <= j < reactions@.len() implies ids(
                        (#[trigger] reactions@[j]).users@,
                    ) == users_with(next, reactions@[j].emoji@) by {
                        if j < old_reactions.len() {
                            assert(reactions@[j] == old_reactions[j]);
                            assert(reaction_emojis(old_reactions)[j] == old_reactions[j].emoji@);
                        } else {
                            assert(ids(reactions@[j].users@) =~= seq![user@]);
                        }
                    }
                }
            },
        }
        k += 1;
    }
    proof {
        assert(rows@.subrange(0, k as int) =~= rows@);
    }
    reactions
}

/// The number of users listed under the emojis of `es`.
pub open spec fn total_users(rows: Seq<(String, String)>, es: Seq<Seq<char>>) -> nat
    decreases es.len(),
{
    if es.len() == 0 {
        0
    } else {
        total_users(rows, es.drop_last()) + users_with(rows, es.last()).len()
    }
}

/// Adding one row adds one user under its emoji, when that emoji is listed
/// (once) in `es`.
proof fn lemma_total_users_step(rows: Seq<(String, String)>, es: Seq<Seq<char>>)
    requires
        rows.len() > 0,
        es.no_duplicates(),
    ensures
        total_users(rows, es) == total_users(rows.drop_last(), es) + if es.contains(
            rows.last().0@,
        ) {
            1nat
        } else {
            0nat
        },
    decreases es.len(),
{
    if es.len() > 0 {
        let p = es.drop_last();
        assert(p.no_duplicates()) by {
            assert forall|a: int, b: int| 0 <= a < b < p.len() implies p[a] != p[b] by {
                assert(p[a] == es[a] && p[b] == es[b]);
            }
        }
        lemma_total_users_step(rows, p);
        let e = rows.last().0@;
        if p.contains(e) {
            let a = choose|a: int| 0 <= a < p.len() && p[a] == e;
            assert(es[a] == e);
            assert(es.contains(e));
            assert(es.last() != e) by {
                assert(es[es.len() - 1] == es.last());
                assert(es[a] == p[a]);
            }
        } else if es.last() == e {
            assert(es[es.len() - 1] == e);
        } else {
            if es.contains(e) {
                let a = choose|a: int| 0 <= a < es.len() && es[a] == e;
                if a < p.len() {
                    assert(p[a] == e);
                } else {
                    assert(es[a] == es.last());
                }
            }
        }
    }
}

/// Grouping gives one reaction per emoji: no emoji twice, and exactly the
/// emojis that some row carries.
pub proof fn law_one_reaction_per_emoji(rows: Seq<(String, String)>, e: Seq<char>)
    ensures
        first_emojis(rows).no_duplicates(),
        first_emojis(rows).contains(e) <==> exists|j: int| 0 <= j < rows.len() && rows[j].0@ == e,
{
    lemma_first_emojis(rows, e);
}

/// Grouping loses and repeats no row: the reactions list as many users in all
/// as there are rows.
pub proof fn law_grouping_keeps_every_row(rows: Seq<(String, String)>)
    ensures
        total_users(rows, first_emojis(rows)) == rows.len(),
    decreases rows.len(),
{
    if rows.len() > 0 {
        let pre = rows.drop_last();
        let e = rows.last().0@;
        law_grouping_keeps_every_row(pre);
        lemma_first_emojis(pre, e);
        lemma_first_emojis(rows, e);
        let f = first_emojis(pre);
        if f.contains(e) {
            lemma_total_users_step(rows, f);
        } else {
            lemma_total_users_step(rows, f);
            assert(first_emojis(rows) == f.push(e));
            assert(f.push(e).drop_last() =~= f);
            assert(users_with(pre, e) == Seq::<Seq<char>>::empty());
        }
    }
}

/// How many messages a page holds: 50 unless the client asks for another
/// number, and never more than 100.
pub fn effective_message_limit(limit: Option<i64>) -> (res: i64)
    ensures
        res == match limit {
            Some(l) => if l < 100 {
                l
            } else {
                100
            },
            None => 50,
        },
{
    let l = match limit {
        Some(l) => l,
        None => 50,
    };
    if l < 100 {
        l
    } else {
        100
    }
}

/// Whether a user may edit or delete a message whose author was looked up:
/// only its author may. A message whose author cannot be found is refused
/// the same way, with code 403 and `Non autorisé`.
pub fn check_message_author(author: Option<&str>, user_id: &str) -> (res: Result<(), (u16, String)>)
    ensures
        res is Ok <==> (author matches Some(a) && a@ == user_id@),
        res matches Err(e) ==> e.0 == 403 && e.1@ == "Non autorisé"@,
{
    if let Some(a) = author {
        if str_eq(a, user_id) {
            return Ok(());
        }
    }
    Err((403, "Non autorisé".to_owned()))
}

} // verus!
