//! The users that a bot is bound to.

use crate::text::{lemma_trimmed_idempotent, texts, trimmed};
use vstd::prelude::*;

verus! {

/// What a finished login does to the users bound before it.
#[derive(Debug, Clone, Copy, PartialEq, Eq, Structural)]
pub enum WeChatQrBindMode {
    /// They stay, and the new user comes after them.
    Append,
    /// They go.
    Replace,
}

impl Default for WeChatQrBindMode {
    fn default() -> (mode: Self)
        ensures
            mode is Append,
    {
        WeChatQrBindMode::Append
    }
}

/// The users that are kept on disk.
#[derive(Debug)]
pub struct BindingsData {
    pub bound_users: Vec<String>,
}

/// True of a text that names one user: it is not empty, and not the wildcard.
pub open spec fn is_concrete(user: Seq<char>) -> bool {
    user.len() > 0 && user != "*"@
}

/// `list` with `user` at its end, unless it is in it.
pub open spec fn with_user(list: Seq<Seq<char>>, user: Seq<char>) -> Seq<Seq<char>> {
    if list.contains(user) {
        list
    } else {
        list.push(user)
    }
}

/// `list` where of equal entries only the first is kept.
pub open spec fn first_occurrences(list: Seq<Seq<char>>) -> Seq<Seq<char>>
    decreases list.len(),
{
    if list.len() == 0 {
        list
    } else {
        with_user(first_occurrences(list.drop_last()), list.last())
    }
}

/// The users that `list` names: trimmed, without blanks and wildcards, each once,
/// in the order in which they come first.
pub open spec fn concrete_users(list: Seq<Seq<char>>) -> Seq<Seq<char>> {
    first_occurrences(
        list.map_values(|user: Seq<char>| trimmed(user)).filter(
            |user: Seq<char>| is_concrete(user),
        ),
    )
}

/// The entries that are kept on disk; none where nothing readable is kept.
pub open spec fn persisted_entries(bindings: Option<&BindingsData>) -> Seq<Seq<char>> {
    match bindings {
        Some(bindings) => texts(bindings.bound_users@),
        None => Seq::empty(),
    }
}

/// The users that are kept on disk.
pub open spec fn persisted_users(bindings: Option<&BindingsData>) -> Seq<Seq<char>> {
    concrete_users(persisted_entries(bindings))
}

/// The users that are bound once a login of `user` has finished.
pub open spec fn users_after_login(
    mode: WeChatQrBindMode,
    persisted: Seq<Seq<char>>,
    user: Seq<char>,
) -> Seq<Seq<char>> {
    match mode {
        WeChatQrBindMode::Append => with_user(persisted, user),
        WeChatQrBindMode::Replace => seq![user],
    }
}

/// One more entry adds one more user, unless it is blank, a wildcard or known.
pub proof fn lemma_concrete_users_push(list: Seq<Seq<char>>, entry: Seq<char>)
    ensures
        concrete_users(list.push(entry)) == if is_concrete(trimmed(entry)) {
            with_user(concrete_users(list), trimmed(entry))
        } else {
            concrete_users(list)
        },
{
    reveal(Seq::filter);
    let trim = |user: Seq<char>| trimmed(user);
    let keep = |user: Seq<char>| is_concrete(user);
    assert(list.push(entry).map_values(trim) =~= list.map_values(trim).push(trimmed(entry)));
    let all = list.map_values(trim).push(trimmed(entry));
    assert(all.drop_last() =~= list.map_values(trim));
    let kept = list.map_values(trim).filter(keep);
    assert(kept.push(trimmed(entry)).drop_last() =~= kept);
}

/// An empty list names nobody.
pub proof fn lemma_no_concrete_users()
    ensures
        concrete_users(Seq::empty()) == Seq::<Seq<char>>::empty(),
{
    reveal(Seq::filter);
    assert(concrete_users(Seq::empty()) =~= Seq::<Seq<char>>::empty());
}

/// Puts `user` at the end of `list`, unless it is in it.
fn add_user(list: &mut Vec<String>, user: &str)
    ensures
        texts(final(list)@) == with_user(texts(old(list)@), user@),
{
    let mut index: usize = 0;
    while index < list.len()
        invariant
            index <= list@.len(),
            *list == *old(list),
            forall|earlier: int| 0 <= earlier < index ==> texts(list@)[earlier] != user@,
        decreases list@.len() - index,
    {
        if list[index].as_str().eq(user) {
            assert(texts(list@)[index as int] == user@);
            return ;
        }
        index += 1;
    }
    list.push(user.to_owned());
    assert(texts(list@) =~= texts(old(list)@).push(user@));
}

/// Adds the users that `users` names to those that `known` names.
pub(crate) fn add_concrete_users(
    list: &mut Vec<String>,
    users: &[String],
    Ghost(known): Ghost<Seq<Seq<char>>>,
)
    requires
        texts(old(list)@) == concrete_users(known),
    ensures
        texts(final(list)@) == concrete_users(known + texts(users@)),
{
    let mut index: usize = 0;
    assert(known + texts(users@).take(0) =~= known);
    while index < users.len()
        invariant
            index <= users@.len(),
            texts(list@) == concrete_users(known + texts(users@).take(index as int)),
        decreases users@.len() - index,
    {
        let user = users[index].as_str().trim();
        proof {
            let before = known + texts(users@).take(index as int);
            lemma_concrete_users_push(before, users@[index as int]@);
            assert(known + texts(users@).take(index + 1) =~= before.push(
                users@[index as int]@,
            ));
        }
        if !user.is_empty() && !user.eq("*") {
            add_user(list, user);
        }
        index += 1;
    }
    assert(texts(users@).take(users@.len() as int) =~= texts(users@));
}

/// The users that `users` names: trimmed, without blanks and wildcards, each once,
/// in the order in which they come first.
pub fn normalized_concrete_users(users: &[String]) -> (list: Vec<String>)
    ensures
        texts(list@) == concrete_users(texts(users@)),
{
    let mut list: Vec<String> = Vec::new();
    proof {
        lemma_no_concrete_users();
        assert(texts(list@) =~= Seq::<Seq<char>>::empty());
        assert(Seq::<Seq<char>>::empty() + texts(users@) =~= texts(users@));
    }
    add_concrete_users(&mut list, users, Ghost(Seq::empty()));
    list
}

/// The users that are kept on disk. `bindings` is what the file holds; `None`
/// stands for a file that is missing or unreadable.
pub fn load_persisted_bound_users(bindings: Option<&BindingsData>) -> (list: Vec<String>)
    ensures
        texts(list@) == persisted_users(bindings),
{
    match bindings {
        Some(bindings) => normalized_concrete_users(bindings.bound_users.as_slice()),
        None => {
            let list: Vec<String> = Vec::new();
            proof {
                lemma_no_concrete_users();
            }
            assert(texts(list@) =~= Seq::<Seq<char>>::empty());
            list
        },
    }
}

/// What is to be kept on disk once a login of `user_id` has finished. `bindings`
/// is what was kept until then.
pub fn bindings_after_login(
    bindings: Option<&BindingsData>,
    bind_mode: WeChatQrBindMode,
    user_id: &str,
) -> (updated: BindingsData)
    ensures
        texts(updated.bound_users@) == users_after_login(
            bind_mode,
            persisted_users(bindings),
            user_id@,
        ),
{
    let mut bound_users: Vec<String> = match bind_mode {
        WeChatQrBindMode::Append => load_persisted_bound_users(bindings),
        WeChatQrBindMode::Replace => Vec::new(),
    };
    let ghost before = texts(bound_users@);
    add_user(&mut bound_users, user_id);
    proof {
        if bind_mode is Replace {
            assert(before =~= Seq::<Seq<char>>::empty());
            assert(with_user(before, user_id@) =~= seq![user_id@]);
        }
    }
    BindingsData { bound_users }
}

/// A user is in the normalized list exactly where some entry, trimmed, names it.
pub proof fn law_normalized_membership(list: Seq<Seq<char>>, user: Seq<char>)
    ensures
        concrete_users(list).contains(user) <==> is_concrete(user) && exists|index: int|
            0 <= index < list.len() && trimmed(#[trigger] list[index]) == user,
    decreases list.len(),
{
    if list.len() == 0 {
        lemma_no_concrete_users();
        assert(list =~= Seq::<Seq<char>>::empty());
    } else {
        let rest = list.drop_last();
        let entry = list.last();
        law_normalized_membership(rest, user);
        assert(rest.push(entry) =~= list);
        lemma_concrete_users_push(rest, entry);
        let known = concrete_users(rest);
        assert(forall|index: int| 0 <= index < rest.len() ==> rest[index] == list[index]);
        assert(list[list.len() - 1] == entry);
        if known.contains(user) {
            let index = choose|index: int|
                0 <= index < rest.len() && trimmed(#[trigger] rest[index]) == user;
            assert(trimmed(list[index]) == user);
            let at = known.index_of(user);
            assert(with_user(known, trimmed(entry))[at] == user);
        }
        if is_concrete(trimmed(entry)) && trimmed(entry) == user {
            assert(known.contains(user) || known.push(user).last() == user);
        }
        if exists|index: int| 0 <= index < list.len() && trimmed(#[trigger] list[index]) == user {
            let index = choose|index: int|
                0 <= index < list.len() && trimmed(#[trigger] list[index]) == user;
            if index < rest.len() {
                assert(trimmed(rest[index]) == user);
            }
        }
    }
}

/// A normalized list names no user twice, and every entry of it is trimmed, not
/// empty and not the wildcard.
pub proof fn law_normalized_entries(list: Seq<Seq<char>>)
    ensures
        concrete_users(list).no_duplicates(),
        forall|index: int|
            0 <= index < concrete_users(list).len() ==> is_concrete(
                #[trigger] concrete_users(list)[index],
            ) && trimmed(concrete_users(list)[index]) == concrete_users(list)[index],
    decreases list.len(),
{
    if list.len() == 0 {
        lemma_no_concrete_users();
        assert(list =~= Seq::<Seq<char>>::empty());
    } else {
        law_normalized_entries(list.drop_last());
        assert(list.drop_last().push(list.last()) =~= list);
        lemma_concrete_users_push(list.drop_last(), list.last());
        lemma_trimmed_idempotent(list.last());
    }
}

/// A normalized list keeps the order in which users come first: where one user
/// stands before another, some entry that names it comes before every entry that
/// names the other.
pub proof fn law_normalized_order(list: Seq<Seq<char>>, first: int, second: int)
    requires
        0 <= first < second < concrete_users(list).len(),
    ensures
        exists|index: int|
            0 <= index < list.len() && trimmed(#[trigger] list[index]) == concrete_users(
                list,
            )[first] && forall|earlier: int|
                0 <= earlier <= index ==> trimmed(#[trigger] list[earlier]) != concrete_users(
                    list,
                )[second],
    decreases list.len(),
{
    if list.len() == 0 {
        lemma_no_concrete_users();
        assert(list =~= Seq::<Seq<char>>::empty());
    } else {
        let rest = list.drop_last();
        let entry = list.last();
        assert(rest.push(entry) =~= list);
        lemma_concrete_users_push(rest, entry);
        let known = concrete_users(rest);
        assert(forall|index: int| 0 <= index < rest.len() ==> rest[index] == list[index]);
        if second < known.len() {
            law_normalized_order(rest, first, second);
            let index = choose|index: int|
                0 <= index < rest.len() && trimmed(#[trigger] rest[index]) == known[first]
                    && forall|earlier: int|
                    0 <= earlier <= index ==> trimmed(#[trigger] rest[earlier]) != known[second];
            assert(trimmed(list[index]) == concrete_users(list)[first]);
            assert forall|earlier: int| 0 <= earlier <= index implies trimmed(
                #[trigger] list[earlier],
            ) != concrete_users(list)[second] by {
                assert(trimmed(rest[earlier]) != known[second]);
            }
        } else {
            let other = trimmed(entry);
            assert(concrete_users(list)[second] == other);
            law_normalized_membership(rest, known[first]);
            assert(known.contains(known[first]));
            let index = choose|index: int|
                0 <= index < rest.len() && trimmed(#[trigger] rest[index]) == known[first];
            assert(trimmed(list[index]) == concrete_users(list)[first]);
            assert forall|earlier: int| 0 <= earlier <= index implies trimmed(
                #[trigger] list[earlier],
            ) != concrete_users(list)[second] by {
                law_normalized_membership(rest, other);
                assert(list[earlier] == rest[earlier]);
            }
        }
    }
}

proof fn lemma_concrete_users_of_prefix(list: Seq<Seq<char>>, count: int)
    requires
        0 <= count <= list.len(),
        list.no_duplicates(),
        forall|index: int|
            0 <= index < list.len() ==> is_concrete(#[trigger] list[index]) && trimmed(list[index])
                == list[index],
    ensures
        concrete_users(list.take(count)) == list.take(count),
    decreases count,
{
    if count == 0 {
        lemma_no_concrete_users();
        assert(list.take(count) =~= Seq::<Seq<char>>::empty());
    } else {
        lemma_concrete_users_of_prefix(list, count - 1);
        let rest = list.take(count - 1);
        assert(rest.push(list[count - 1]) =~= list.take(count));
        lemma_concrete_users_push(rest, list[count - 1]);
        assert(!rest.contains(list[count - 1]));
    }
}

/// Normalizing a list that is normalized changes nothing.
pub proof fn law_normalizing_twice(list: Seq<Seq<char>>)
    ensures
        concrete_users(concrete_users(list)) == concrete_users(list),
{
    let once = concrete_users(list);
    law_normalized_entries(list);
    lemma_concrete_users_of_prefix(once, once.len() as int);
    assert(once.take(once.len() as int) =~= once);
}

/// Binding another user keeps those bound before in their places.
pub proof fn law_append_keeps_bound_users(persisted: Seq<Seq<char>>, user: Seq<char>)
    ensures
        persisted.is_prefix_of(users_after_login(WeChatQrBindMode::Append, persisted, user)),
        users_after_login(WeChatQrBindMode::Append, persisted, user).contains(user),
        persisted.contains(user) ==> users_after_login(WeChatQrBindMode::Append, persisted, user)
            == persisted,
{
    let after = with_user(persisted, user);
    if !persisted.contains(user) {
        assert(after[persisted.len() as int] == user);
    }
}

/// A login that replaces leaves its own user and no other.
pub proof fn law_replace_leaves_one_user(
    persisted: Seq<Seq<char>>,
    user: Seq<char>,
    other: Seq<char>,
)
    ensures
        users_after_login(WeChatQrBindMode::Replace, persisted, user).contains(other) <==> other
            == user,
{
    let after = users_after_login(WeChatQrBindMode::Replace, persisted, user);
    assert(after[0] == user);
}

/// What a login writes is what is read back later, for a user whose name is
/// trimmed, not empty and not the wildcard.
pub proof fn law_bound_users_read_back(
    mode: WeChatQrBindMode,
    before: Option<&BindingsData>,
    user: Seq<char>,
    after: &BindingsData,
)
    requires
        is_concrete(user),
        trimmed(user) == user,
        texts(after.bound_users@) == users_after_login(mode, persisted_users(before), user),
    ensures
        persisted_users(Some(after)) == users_after_login(mode, persisted_users(before), user),
        persisted_users(Some(after)).contains(user),
{
    let persisted = persisted_users(before);
    let written = users_after_login(mode, persisted, user);
    law_normalized_entries(persisted_entries(before));
    lemma_concrete_users_of_prefix(written, written.len() as int);
    assert(written.take(written.len() as int) =~= written);
    law_append_keeps_bound_users(persisted, user);
    law_replace_leaves_one_user(persisted, user, user);
}

proof fn lemma_front_may_be_normalized(front: Seq<Seq<char>>, back: Seq<Seq<char>>)
    ensures
        concrete_users(concrete_users(front) + back) == concrete_users(front + back),
    decreases back.len(),
{
    if back.len() == 0 {
        law_normalizing_twice(front);
        assert(concrete_users(front) + back =~= concrete_users(front));
        assert(front + back =~= front);
    } else {
        let rest = back.drop_last();
        lemma_front_may_be_normalized(front, rest);
        assert(front + back =~= (front + rest).push(back.last()));
        assert(concrete_users(front) + back =~= (concrete_users(front) + rest).push(back.last()));
        lemma_concrete_users_push(front + rest, back.last());
        lemma_concrete_users_push(concrete_users(front) + rest, back.last());
    }
}

proof fn lemma_back_may_be_normalized(front: Seq<Seq<char>>, back: Seq<Seq<char>>)
    ensures
        concrete_users(front + concrete_users(back)) == concrete_users(front + back),
    decreases back.len(),
{
    if back.len() == 0 {
        lemma_no_concrete_users();
        assert(back =~= Seq::<Seq<char>>::empty());
    } else {
        let rest = back.drop_last();
        let entry = back.last();
        let user = trimmed(entry);
        let known = concrete_users(rest);
        lemma_back_may_be_normalized(front, rest);
        assert(rest.push(entry) =~= back);
        assert(front + back =~= (front + rest).push(entry));
        lemma_concrete_users_push(rest, entry);
        lemma_concrete_users_push(front + rest, entry);
        if is_concrete(user) {
            if known.contains(user) {
                law_normalized_membership(rest, user);
                let index = choose|index: int|
                    0 <= index < rest.len() && trimmed(#[trigger] rest[index]) == user;
                assert((front + rest)[front.len() + index] == rest[index]);
                law_normalized_membership(front + rest, user);
            } else {
                assert(front + known.push(user) =~= (front + known).push(user));
                lemma_concrete_users_push(front + known, user);
                lemma_trimmed_idempotent(entry);
            }
        }
    }
}

proof fn lemma_front_stays_in_front(front: Seq<Seq<char>>, back: Seq<Seq<char>>)
    ensures
        concrete_users(front).is_prefix_of(concrete_users(front + back)),
    decreases back.len(),
{
    if back.len() == 0 {
        assert(front + back =~= front);
    } else {
        lemma_front_stays_in_front(front, back.drop_last());
        assert(front + back =~= (front + back.drop_last()).push(back.last()));
        lemma_concrete_users_push(front + back.drop_last(), back.last());
    }
}

/// It makes no difference whether two lists are normalized before they are put
/// together, and the users of the first come first.
pub proof fn law_normalizing_a_concatenation(front: Seq<Seq<char>>, back: Seq<Seq<char>>)
    ensures
        concrete_users(front + back) == concrete_users(
            concrete_users(front) + concrete_users(back),
        ),
        concrete_users(front).is_prefix_of(concrete_users(front + back)),
{
    lemma_front_stays_in_front(front, back);
    lemma_front_may_be_normalized(front, concrete_users(back));
    lemma_back_may_be_normalized(front, back);
}

/// Binding a user a second time, in the same mode, leaves on disk what the first
/// time left. The user's name is trimmed, as that of every login is.
pub proof fn law_binding_twice_changes_nothing(
    mode: WeChatQrBindMode,
    before: Option<&BindingsData>,
    user: Seq<char>,
    once: &BindingsData,
)
    requires
        trimmed(user) == user,
        texts(once.bound_users@) == users_after_login(mode, persisted_users(before), user),
    ensures
        users_after_login(mode, persisted_users(Some(once)), user) == texts(once.bound_users@),
{
    let persisted = persisted_users(before);
    if mode is Append {
        if is_concrete(user) {
            law_bound_users_read_back(mode, before, user, once);
        } else {
            law_normalized_entries(persisted_entries(before));
            assert(!persisted.contains(user));
            law_normalizing_twice(persisted_entries(before));
            lemma_concrete_users_push(persisted, user);
        }
    }
}

} // verus!
