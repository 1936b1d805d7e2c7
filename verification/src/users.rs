//! The table of registered users and the music each of them gets.

use vstd::prelude::*;

verus! {

/// The user names (the keys) of `entries` are pairwise different.
pub open spec fn keys_distinct(entries: Seq<(String, String)>) -> bool {
    forall|i: int, j: int|
        0 <= i < j < entries.len() ==> #[trigger] entries[i].0@ != #[trigger] entries[j].0@
}

/// The user name of the entry at `i`.
pub open spec fn key_at(entries: Seq<(String, String)>, i: int) -> Seq<char> {
    entries[i].0@
}

/// The map from user name to music that the list of pairs `entries` spells,
/// a later pair taking the place of an earlier one with the same name.
pub open spec fn entries_map(entries: Seq<(String, String)>) -> Map<Seq<char>, Seq<char>>
    decreases entries.len(),
{
    if entries.len() == 0 {
        Map::empty()
    } else {
        entries_map(entries.drop_last()).insert(entries.last().0@, entries.last().1@)
    }
}

/// A name has an entry in the map exactly where some pair has that name.
pub proof fn lemma_entries_map_dom(entries: Seq<(String, String)>, name: Seq<char>)
    ensures
        entries_map(entries).contains_key(name) <==> exists|i: int|
            0 <= i < entries.len() && #[trigger] key_at(entries, i) == name,
    decreases entries.len(),
{
    if entries.len() > 0 {
        let p = entries.drop_last();
        lemma_entries_map_dom(p, name);
        assert(key_at(entries, entries.len() - 1) == entries.last().0@);
        if entries_map(p).contains_key(name) {
            let i = choose|i: int| 0 <= i < p.len() && #[trigger] key_at(p, i) == name;
            assert(key_at(entries, i) == name);
        }
        if exists|i: int| 0 <= i < entries.len() && #[trigger] key_at(entries, i) == name {
            let i = choose|i: int| 0 <= i < entries.len() && #[trigger] key_at(entries, i) == name;
            if i < p.len() {
                assert(key_at(p, i) == name);
            }
        }
    }
}

/// With distinct names, the map sends the name of each pair to its music.
pub proof fn lemma_entries_map_value(entries: Seq<(String, String)>, i: int)
    requires
        keys_distinct(entries),
        0 <= i < entries.len(),
    ensures
        entries_map(entries).contains_key(entries[i].0@),
        entries_map(entries)[entries[i].0@] == entries[i].1@,
    decreases entries.len(),
{
    let p = entries.drop_last();
    if i < entries.len() - 1 {
        assert(keys_distinct(p)) by {
            assert forall|a: int, b: int| 0 <= a < b < p.len() implies #[trigger] p[a].0@
                != #[trigger] p[b].0@ by {
                assert(p[a] == entries[a] && p[b] == entries[b]);
            }
        }
        assert(p[i] == entries[i]);
        lemma_entries_map_value(p, i);
        assert(entries[i].0@ != entries[entries.len() - 1].0@);
    }
}

/// Registered users with the music of each: a map from user name to music.
pub struct UserTable {
    entries: Vec<(String, String)>,
}

impl View for UserTable {
    type V = Map<Seq<char>, Seq<char>>;

    closed spec fn view(&self) -> Map<Seq<char>, Seq<char>> {
        entries_map(self.entries@)
    }
}

impl UserTable {
    /// No name appears in two entries.
    #[verifier::type_invariant]
    closed spec fn names_unique(&self) -> bool {
        keys_distinct(self.entries@)
    }

    /// An empty table.
    pub fn new() -> (table: UserTable)
        ensures
            table@ == Map::<Seq<char>, Seq<char>>::empty(),
    {
        UserTable { entries: Vec::new() }
    }

    /// The music registered for `user`, if any.
    pub fn get(&self, user: &String) -> (music: Option<&String>)
        ensures
            match music {
                Some(m) => self@.contains_key(user@) && m@ == self@[user@],
                None => !self@.contains_key(user@),
            },
    {
        proof {
            use_type_invariant(self);
        }
        let n = self.entries.len();
        let mut i: usize = 0;
        while i < n
            invariant
                n == self.entries@.len(),
                i <= n,
                keys_distinct(self.entries@),
                forall|j: int| 0 <= j < i ==> key_at(self.entries@, j) != user@,
            decreases n - i,
        {
            if self.entries[i].0 == *user {
                proof {
                    lemma_entries_map_value(self.entries@, i as int);
                }
                return Some(&self.entries[i].1);
            }
            i = i + 1;
        }
        proof {
            lemma_entries_map_dom(self.entries@, user@);
        }
        None
    }

    /// Registers `music` for `user`, in place of any music registered before.
    pub fn insert(&mut self, user: String, music: String)
        ensures
            final(self)@ == old(self)@.insert(user@, music@),
    {
        proof {
            use_type_invariant(&*self);
        }
        let ghost old_entries = self.entries@;
        let n = self.entries.len();
        let mut kept: Vec<(String, String)> = Vec::new();
        let mut j: usize = 0;
        assert(old_entries.take(0) =~= Seq::<(String, String)>::empty());
        assert(entries_map(kept@) =~= entries_map(old_entries.take(0)).remove(user@));
        while j < n
            invariant
                n == old_entries.len(),
                old_entries == self.entries@,
                keys_distinct(old_entries),
                j <= n,
                keys_distinct(kept@),
                entries_map(kept@) == entries_map(old_entries.take(j as int)).remove(user@),
            decreases n - j,
        {
            let ghost seen = old_entries.take(j as int);
            let ghost next = old_entries.take(j + 1);
            assert(next.drop_last() =~= seen);
            assert(next.last() == old_entries[j as int]);
            let name = &self.entries[j].0;
            if *name == user {
                assert(entries_map(kept@) =~= entries_map(next).remove(user@));
            } else {
                proof {
                    lemma_entries_map_dom(seen, old_entries[j as int].0@);
                    lemma_entries_map_dom(kept@, old_entries[j as int].0@);
                    assert forall|a: int| 0 <= a < seen.len() implies key_at(seen, a)
                        != old_entries[j as int].0@ by {
                        assert(seen[a] == old_entries[a]);
                    }
                    assert(!entries_map(kept@).contains_key(old_entries[j as int].0@));
                }
                let ghost before_push = kept@;
                let entry = (name.clone(), self.entries[j].1.clone());
                kept.push(entry);
                proof {
                    assert(kept@.drop_last() =~= before_push);
                    assert forall|a: int, b: int| 0 <= a < b < kept@.len() implies #[trigger] kept@[
                        a].0@ != #[trigger] kept@[b].0@ by {
                        if b == kept@.len() - 1 {
                            assert(kept@[a] == before_push[a]);
                            assert(key_at(before_push, a) == kept@[a].0@);
                        } else {
                            assert(kept@[a] == before_push[a] && kept@[b] == before_push[b]);
                        }
                    }
                    assert(entries_map(kept@) =~= entries_map(next).remove(user@));
                }
            }
            j = j + 1;
        }
        assert(old_entries.take(n as int) =~= old_entries);
        proof {
            lemma_entries_map_dom(kept@, user@);
        }
        let ghost before_push = kept@;
        kept.push((user, music));
        proof {
            assert(kept@.drop_last() =~= before_push);
            assert forall|a: int, b: int| 0 <= a < b < kept@.len() implies #[trigger] kept@[a].0@
                != #[trigger] kept@[b].0@ by {
                if b == kept@.len() - 1 {
                    assert(kept@[a] == before_push[a]);
                    assert(key_at(before_push, a) == kept@[a].0@);
                } else {
                    assert(kept@[a] == before_push[a] && kept@[b] == before_push[b]);
                }
            }
            assert(entries_map(kept@) =~= entries_map(old_entries).insert(user@, music@));
        }
        self.entries = kept;
    }

    /// The table that the pairs `pairs` spell, a later pair for a user
    /// taking the place of an earlier one.
    pub fn from_pairs(pairs: Vec<(String, String)>) -> (table: UserTable)
        ensures
            table@ == entries_map(pairs@),
    {
        let mut table = UserTable::new();
        let ghost all = pairs@;
        let n = pairs.len();
        let mut i: usize = 0;
        assert(all.take(0) =~= Seq::<(String, String)>::empty());
        while i < n
            invariant
                n == all.len(),
                all == pairs@,
                i <= n,
                table@ == entries_map(all.take(i as int)),
            decreases n - i,
        {
            let user = pairs[i].0.clone();
            let music = pairs[i].1.clone();
            assert(all.take(i + 1).drop_last() =~= all.take(i as int));
            assert(all.take(i + 1).last() == all[i as int]);
            table.insert(user, music);
            i = i + 1;
        }
        assert(all.take(n as int) =~= all);
        table
    }

    /// The registered users and their music, one pair per user, in no
    /// particular order.
    pub fn pairs(&self) -> (pairs: Vec<(String, String)>)
        ensures
            keys_distinct(pairs@),
            entries_map(pairs@) == self@,
    {
        proof {
            use_type_invariant(self);
        }
        let n = self.entries.len();
        let mut out: Vec<(String, String)> = Vec::new();
        let mut i: usize = 0;
        while i < n
            invariant
                n == self.entries@.len(),
                i <= n,
                out@ =~= self.entries@.take(i as int),
            decreases n - i,
        {
            let entry = (self.entries[i].0.clone(), self.entries[i].1.clone());
            out.push(entry);
            assert(out@ =~= self.entries@.take(i + 1));
            i = i + 1;
        }
        assert(self.entries@.take(n as int) =~= self.entries@);
        out
    }
}

/// After registering `music` for `user`, looking `user` up gives that
/// music, and looking up anyone else gives what it gave before.
pub proof fn lookup_after_register(
    before: Map<Seq<char>, Seq<char>>,
    user: Seq<char>,
    music: Seq<char>,
    other: Seq<char>,
)
    requires
        other != user,
    ensures
        before.insert(user, music).contains_key(user),
        before.insert(user, music)[user] == music,
        before.insert(user, music).contains_key(other) == before.contains_key(other),
        before.contains_key(other) ==> before.insert(user, music)[other] == before[other],
{
}

} // verus!
