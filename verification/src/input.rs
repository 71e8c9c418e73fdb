//! The keyboard buffer: which keys are held, and a one-shot latch for keys
//! that were pressed and released between two polls.

use vstd::prelude::*;

verus! {

/// The keys that a sequence of strings names.
pub open spec fn keys_of(s: Seq<String>) -> Set<Seq<char>> {
    Set::new(|k: Seq<char>| exists|i: int| 0 <= i < s.len() && #[trigger] s[i]@ == k)
}

/// Whether `key` occurs in `keys`.
fn holds(keys: &Vec<String>, key: &String) -> (found: bool)
    ensures
        found == keys_of(keys@).contains(key@),
{
    let mut i: usize = 0;
    while i < keys.len()
        invariant
            i <= keys.len(),
            forall|j: int| 0 <= j < i ==> #[trigger] keys@[j]@ != key@,
        decreases keys.len() - i,
    {
        if keys[i] == *key {
            return true;
        }
        i += 1;
    }
    false
}

/// Adds `key` to `keys` unless it is there already.
fn put(keys: &mut Vec<String>, key: String)
    ensures
        keys_of(final(keys)@) == keys_of(old(keys)@).insert(key@),
{
    if !holds(keys, &key) {
        let ghost before = keys@;
        let ghost k = key@;
        keys.push(key);
        assert(keys@[before.len() as int]@ == k);
        assert forall|j: int| 0 <= j < before.len() implies keys@[j] == before[j] by {}
        assert(keys_of(keys@) =~= keys_of(before).insert(k));
    } else {
        assert(keys_of(keys@) =~= keys_of(keys@).insert(key@));
    }
}

/// Takes every occurrence of `key` out of `keys`, and says whether there was one.
fn take(keys: &mut Vec<String>, key: &String) -> (found: bool)
    ensures
        found == keys_of(old(keys)@).contains(key@),
        keys_of(final(keys)@) == keys_of(old(keys)@).remove(key@),
{
    let ghost before = keys@;
    let mut kept: Vec<String> = Vec::new();
    let mut found = false;
    let mut i: usize = 0;
    while i < keys.len()
        invariant
            i <= keys.len(),
            keys@ == before,
            found == keys_of(before.take(i as int)).contains(key@),
            keys_of(kept@) == keys_of(before.take(i as int)).remove(key@),
        decreases keys.len() - i,
    {
        let ghost head = before.take(i as int);
        let ghost next = before.take(i as int + 1);
        assert(next =~= head.push(before[i as int]));
        assert(next[i as int] == before[i as int]);
        assert forall|j: int| 0 <= j < i implies next[j] == head[j] by {}
        assert(keys_of(next) =~= keys_of(head).insert(before[i as int]@));
        if keys[i] == *key {
            found = true;
            assert(keys_of(kept@) =~= keys_of(next).remove(key@));
        } else {
            let ghost prior = kept@;
            kept.push(keys[i].clone());
            assert(kept@[prior.len() as int]@ == before[i as int]@);
            assert forall|j: int| 0 <= j < prior.len() implies kept@[j] == prior[j] by {}
            assert(keys_of(kept@) =~= keys_of(prior).insert(before[i as int]@));
            assert(keys_of(kept@) =~= keys_of(next).remove(key@));
        }
        i += 1;
    }
    assert(before.take(before.len() as int) =~= before);
    *keys = kept;
    found
}

/// The keyboard state between polls.
pub struct InputProto {
    keydown: Vec<String>,
    keydown_cache: Vec<String>,
    keyup: Vec<String>,
}

impl InputProto {
    /// The keys that are held down.
    pub closed spec fn down(&self) -> Set<Seq<char>> {
        keys_of(self.keydown@)
    }

    /// The keys that were released after a press that no poll has seen yet.
    pub closed spec fn latched(&self) -> Set<Seq<char>> {
        keys_of(self.keydown_cache@)
    }

    /// The keys that are marked as released.
    pub closed spec fn up(&self) -> Set<Seq<char>> {
        keys_of(self.keyup@)
    }

    /// What a poll for `key` answers in this state.
    pub open spec fn sees(&self, key: Seq<char>) -> bool {
        self.down().contains(key) || self.latched().contains(key)
    }

    /// The state after a poll for `key`: a latched key is let go unless it is
    /// still held.
    pub open spec fn polled(&self, after: &InputProto, key: Seq<char>) -> bool {
        &&& after.down() == self.down()
        &&& after.up() == self.up()
        &&& after.latched() == if self.down().contains(key) {
            self.latched()
        } else {
            self.latched().remove(key)
        }
    }

    pub fn new() -> (input: InputProto)
        ensures
            input.down() == Set::<Seq<char>>::empty(),
            input.latched() == Set::<Seq<char>>::empty(),
            input.up() == Set::<Seq<char>>::empty(),
    {
        let input = InputProto { keydown: Vec::new(), keydown_cache: Vec::new(), keyup: Vec::new() };
        assert(keys_of(input.keydown@) =~= Set::<Seq<char>>::empty());
        assert(keys_of(input.keydown_cache@) =~= Set::<Seq<char>>::empty());
        assert(keys_of(input.keyup@) =~= Set::<Seq<char>>::empty());
        input
    }

    /// Polls `key`: true while it is held, and once more after a release that
    /// followed an unseen press.
    pub fn keydown(&mut self, key: &str) -> (pressed: bool)
        ensures
            pressed == old(self).sees(key@),
            old(self).polled(final(self), key@),
    {
        let owned = key.to_owned();
        if holds(&self.keydown, &owned) {
            true
        } else {
            take(&mut self.keydown_cache, &owned)
        }
    }

    pub fn keyup(&self, key: &str) -> (released: bool)
        ensures
            released == self.up().contains(key@),
    {
        let owned = key.to_owned();
        holds(&self.keyup, &owned)
    }

    /// What the second poll of an axis answers: `neg` is polled after `pos`,
    /// so a latch that the first poll let go is not seen again.
    pub open spec fn sees_after(&self, pos: Seq<char>, neg: Seq<char>) -> bool {
        self.down().contains(neg) || (self.latched().contains(neg) && neg != pos)
    }

    /// One axis from two keys: `1` for `pos` alone, `-1` for `neg` alone, else
    /// `0`. Both keys are polled, `pos` first.
    pub fn axis(&mut self, pos: &str, neg: &str) -> (value: i8)
        ensures
            value == if old(self).sees(pos@) == old(self).sees_after(pos@, neg@) {
                0i8
            } else if old(self).sees(pos@) {
                1i8
            } else {
                -1i8
            },
            final(self).down() == old(self).down(),
            final(self).up() == old(self).up(),
            final(self).latched() == old(self).latched().difference(
                set![pos@, neg@].difference(old(self).down()),
            ),
    {
        let p = self.keydown(pos);
        let n = self.keydown(neg);
        assert(self.latched() =~= old(self).latched().difference(
            set![pos@, neg@].difference(old(self).down()),
        ));
        if p {
            if n { 0 } else { 1 }
        } else if n {
            -1
        } else {
            0
        }
    }

    pub fn on_keydown(&mut self, key: &str)
        ensures
            final(self).down() == old(self).down().insert(key@),
            final(self).latched() == old(self).latched(),
            final(self).up() == old(self).up(),
    {
        put(&mut self.keydown, key.to_owned());
    }

    /// A release: the key is no longer held, and if it was, it is latched.
    pub fn on_keyup(&mut self, key: &str)
        ensures
            final(self).down() == old(self).down().remove(key@),
            final(self).latched() == if old(self).down().contains(key@) {
                old(self).latched().insert(key@)
            } else {
                old(self).latched()
            },
            final(self).up() == old(self).up(),
    {
        let owned = key.to_owned();
        if take(&mut self.keydown, &owned) {
            put(&mut self.keydown_cache, owned);
        }
    }
}

/// A press followed by a release is seen by exactly one poll: the first poll
/// answers true and the second answers false, whatever the buffer held
/// before.
pub proof fn lemma_latch_is_one_shot(
    s0: InputProto,
    s1: InputProto,
    s2: InputProto,
    s3: InputProto,
    key: Seq<char>,
)
    requires
        s1.down() == s0.down().insert(key),
        s1.latched() == s0.latched(),
        s2.down() == s1.down().remove(key),
        s2.latched() == s1.latched().insert(key),
        s2.polled(&s3, key),
    ensures
        s2.sees(key),
        !s3.sees(key),
{
}

} // verus!
