//! The last-error protocol: at most one pending error message, set by a
//! failing operation and consumed by the caller that retrieves it.
use vstd::prelude::*;
use vstd::utf8::encode_utf8;

verus! {

/// Room for an error message and its null terminator.
pub const MAX_ERROR_LENGTH: usize = 1024;

/// The pending error message of one caller, if any. An application keeps
/// one per thread.
pub struct LastError {
    message: Option<Vec<u8>>,
}

impl View for LastError {
    type V = Option<Seq<u8>>;

    closed spec fn view(&self) -> Option<Seq<u8>> {
        match self.message {
            Some(m) => Some(m@),
            None => None,
        }
    }
}

impl LastError {
    /// A pending message leaves room for its terminator.
    pub open spec fn wf(&self) -> bool {
        self@ matches Some(m) ==> m.len() < MAX_ERROR_LENGTH
    }

    /// No pending message.
    pub fn new() -> (r: Self)
        ensures
            r@ is None,
            r.wf(),
    {
        LastError { message: None }
    }
}

/// What is kept of the message `b`: its first bytes, as many as leave room
/// for the terminator.
pub open spec fn kept_message(b: Seq<u8>) -> Seq<u8> {
    if b.len() < MAX_ERROR_LENGTH {
        b
    } else {
        b.subrange(0, MAX_ERROR_LENGTH - 1)
    }
}

/// `m` followed by its null terminator.
pub open spec fn terminated(m: Seq<u8>) -> Seq<u8> {
    m.push(0u8)
}

/// Replaces whatever was pending by the message `err`, cut to leave room
/// for its terminator. Of two failures in a row, only the second is kept.
pub fn update_last_error(slot: &mut LastError, err: String)
    ensures
        final(slot)@ == Some(kept_message(encode_utf8(err@))),
        final(slot).wf(),
{
    let b = err.as_str().as_bytes();
    let n: usize = if b.len() < MAX_ERROR_LENGTH {
        b.len()
    } else {
        MAX_ERROR_LENGTH - 1
    };
    let mut m: Vec<u8> = Vec::new();
    let mut i: usize = 0;
    while i < n
        invariant
            i <= n,
            n <= b@.len(),
            m@ == b@.subrange(0, i as int),
        decreases n - i,
    {
        m.push(b[i]);
        assert(m@ =~= b@.subrange(0, i + 1));
        i += 1;
    }
    assert(m@ =~= kept_message(b@));
    slot.message = Some(m);
}

/// Drops the pending message.
pub fn clear_error(slot: &mut LastError)
    ensures
        final(slot)@ is None,
        final(slot).wf(),
{
    slot.message = None;
}

/// The pending message as a null-terminated string, or the empty string;
/// the message stays pending.
pub fn libra_strerror(slot: &LastError) -> (r: Vec<u8>)
    ensures
        r@ == terminated(
            match slot@ {
                Some(m) => m,
                None => Seq::empty(),
            },
        ),
{
    let mut r: Vec<u8> = match &slot.message {
        Some(m) => m.clone(),
        None => Vec::new(),
    };
    r.push(0u8);
    r
}

/// The room the pending message needs, terminator included: its length
/// plus one, or 0 where none is pending.
pub open spec fn needed_length(pending: Option<Seq<u8>>) -> int {
    match pending {
        Some(m) => m.len() + 1 as int,
        None => 0,
    }
}

/// The room the pending message needs, terminator included, or 0 where none
/// is pending.
pub fn last_error_length(slot: &LastError) -> (r: usize)
    requires
        slot.wf(),
    ensures
        r == needed_length(slot@),
{
    match &slot.message {
        Some(m) => m.len() + 1,
        None => 0,
    }
}

/// What retrieving the pending message into a buffer leaves: the pending
/// message, the buffer, and the returned count. With nothing pending,
/// nothing changes and 0 is returned. Where the buffer is too small, nothing
/// changes and the needed room is returned negated. Otherwise the message and
/// its terminator start the buffer, the message is no longer pending, and the
/// count of bytes written is returned.
pub open spec fn fetch_outcome(pending: Option<Seq<u8>>, buf: Seq<u8>) -> (
    Option<Seq<u8>>,
    Seq<u8>,
    int,
) {
    match pending {
        None => (None, buf, 0),
        Some(m) => if buf.len() < m.len() + 1 as int {
            (pending, buf, -(m.len() + 1))
        } else {
            (None, terminated(m) + buf.subrange(m.len() + 1 as int, buf.len() as int), m.len() + 1 as int)
        },
    }
}

/// Retrieves the pending message into `buf`, whose length is the caller's
/// capacity, as `fetch_outcome` describes: a buffer that is too small is
/// left untouched and the message stays pending, so that the caller can
/// retry with the room that the negated result asks for.
pub fn fetch_last_error(slot: &mut LastError, buf: &mut Vec<u8>) -> (r: i64)
    requires
        old(slot).wf(),
    ensures
        (final(slot)@, final(buf)@, r as int) == fetch_outcome(old(slot)@, old(buf)@),
        final(slot).wf(),
{
    let n: usize = match &slot.message {
        Some(m) => m.len(),
        None => {
            return 0;
        },
    };
    if buf.len() < n + 1 {
        return -((n + 1) as i64);
    }
    let ghost m = slot@->Some_0;
    let ghost before = buf@;
    let mut i: usize = 0;
    while i < n
        invariant
            slot@ == Some(m),
            m.len() == n,
            n < MAX_ERROR_LENGTH,
            i <= n,
            buf@.len() == before.len(),
            n + 1 <= before.len(),
            forall|j: int| 0 <= j < i ==> buf@[j] == m[j],
            forall|j: int| i <= j < before.len() ==> buf@[j] == before[j],
        decreases n - i,
    {
        let byte = match &slot.message {
            Some(msg) => msg[i],
            None => 0,
        };
        buf[i] = byte;
        i += 1;
    }
    buf[n] = 0;
    assert(buf@ =~= terminated(m) + before.subrange(n + 1, before.len() as int));
    slot.message = None;
    (n + 1) as i64
}

/// A caller whose buffer is too small learns the room it needs and loses
/// nothing: the message stays pending and the buffer untouched. Retrying
/// with a buffer of that room retrieves the message and clears it.
pub proof fn lemma_fetch_negotiation(pending: Option<Seq<u8>>, small: Seq<u8>, large: Seq<u8>)
    requires
        pending is Some,
        small.len() < needed_length(pending),
        large.len() >= needed_length(pending),
    ensures
        fetch_outcome(pending, small) == (pending, small, -needed_length(pending)),
        fetch_outcome(fetch_outcome(pending, small).0, large).0 is None,
        fetch_outcome(fetch_outcome(pending, small).0, large).2 == needed_length(pending),
        fetch_outcome(fetch_outcome(pending, small).0, large).1.subrange(
            0,
            needed_length(pending),
        ) == terminated(pending->Some_0),
{
    let m = pending->Some_0;
    let out = fetch_outcome(pending, large).1;
    assert(out.subrange(0, m.len() + 1 as int) =~= terminated(m));
}

} // verus!
