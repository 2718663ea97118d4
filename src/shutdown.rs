//! Shutdown: the handle the host holds to stop a run, and the table that owns
//! handles while the host holds their tokens.
use vstd::prelude::*;

verus! {

/// Largest token the host can carry in its signed 64-bit integer.
pub const MAX_TOKEN: u64 = 0x7fff_ffff_ffff_ffff;

/// The capability the host holds to request a shutdown: the sending end `S` of the
/// cancellation channel. Signaling it or dropping it both end the run.
pub struct ShutdownHandler<S>(pub S);

/// Owns handles while the host holds their tokens. Token `k` names slot `k - 1`;
/// a slot is emptied when its handle is taken back and is never filled again, so a
/// token cannot name two handles nor be taken back twice.
pub struct HandleTable<R> {
    slots: Vec<Option<R>>,
}

/// The handle a token names in a table's slots, if it is still held there.
pub open spec fn held<R>(slots: Seq<Option<R>>, token: u64) -> Option<R> {
    if 1 <= token <= slots.len() {
        slots[token - 1]
    } else {
        None
    }
}

/// The slots after the handle that a token names has been taken back.
pub open spec fn released<R>(slots: Seq<Option<R>>, token: u64) -> Seq<Option<R>> {
    if 1 <= token <= slots.len() {
        slots.update(token - 1, None)
    } else {
        slots
    }
}

impl<R> HandleTable<R> {
    /// The slots, in token order: a held handle, or an emptied slot.
    pub closed spec fn view(&self) -> Seq<Option<R>> {
        self.slots@
    }

    /// A table that holds no handle.
    pub fn new() -> (r: HandleTable<R>)
        ensures
            r@ == Seq::<Option<R>>::empty(),
    {
        HandleTable { slots: Vec::new() }
    }

    /// Whether another token can still be handed out.
    pub fn has_room(&self) -> (r: bool)
        ensures
            r == (self@.len() < MAX_TOKEN),
    {
        (self.slots.len() as u64) < MAX_TOKEN
    }

    /// Stores a handle and returns the fresh token that names it.
    pub fn insert(&mut self, handle: R) -> (token: u64)
        requires
            old(self)@.len() < MAX_TOKEN,
        ensures
            final(self)@ == old(self)@.push(Some(handle)),
            token == final(self)@.len(),
            1 <= token <= MAX_TOKEN,
            held(final(self)@, token) == Some(handle),
    {
        self.slots.push(Some(handle));
        self.slots.len() as u64
    }

    /// Takes back the handle a token names, if it is still held; a token that names
    /// nothing, or was already taken back, leaves the table as it is.
    pub fn take(&mut self, token: u64) -> (r: Option<R>)
        ensures
            r == held(old(self)@, token),
            final(self)@ == released(old(self)@, token),
            held(final(self)@, token) is None,
    {
        if token == 0 || token > self.slots.len() as u64 {
            return None;
        }
        let idx: usize = (token - 1) as usize;
        let mut out: Option<R> = None;
        self.slots.set_and_swap(idx, &mut out);
        proof {
            assert(self.slots@ =~= released(old(self)@, token));
        }
        out
    }
}

impl<S> ShutdownHandler<S> {
    /// Hands the handle over to the table and returns the token the host will carry.
    pub fn into_raw(self, table: &mut HandleTable<ShutdownHandler<S>>) -> (token: u64)
        requires
            old(table)@.len() < MAX_TOKEN,
        ensures
            final(table)@ == old(table)@.push(Some(self)),
            token == final(table)@.len(),
            1 <= token <= MAX_TOKEN,
            held(final(table)@, token) == Some(self),
    {
        table.insert(self)
    }
}

/// Taking a token back a second time finds nothing and changes nothing, so the
/// handle is dropped, and its completion fires, at most once.
pub proof fn lemma_take_twice<R>(slots: Seq<Option<R>>, token: u64)
    ensures
        held(released(slots, token), token) is None,
        released(released(slots, token), token) == released(slots, token),
{
    if 1 <= token <= slots.len() {
        assert(released(released(slots, token), token) =~= released(slots, token));
    }
}

} // verus!
