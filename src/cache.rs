//! The single-slot freshness cache: at most one reading, with the instant it
//! was captured, in milliseconds on a monotonic clock.
use vstd::prelude::*;

verus! {

/// What a cache holds: nothing, or one payload with its capture time.
pub type Slot = Option<(Seq<u8>, u64)>;

/// Age of a reading captured at `captured_ms`, seen at `now_ms`; a clock
/// that reads earlier than the capture gives age zero.
pub open spec fn age(captured_ms: u64, now_ms: u64) -> nat {
    if now_ms >= captured_ms {
        (now_ms - captured_ms) as nat
    } else {
        0
    }
}

/// The slot after publishing `payload` at `now_ms` on a cache holding `before`:
/// the new reading replaces whatever was there.
pub open spec fn publish_on(before: Slot, payload: Seq<u8>, now_ms: u64) -> Slot {
    Some((payload, now_ms))
}

/// The payload held in `slot` if it is at most `threshold_ms` old at `now_ms`.
pub open spec fn fresh_payload(slot: Slot, threshold_ms: u64, now_ms: u64) -> Option<Seq<u8>> {
    match slot {
        Some((payload, captured_ms)) => if age(captured_ms, now_ms) <= threshold_ms {
            Some(payload)
        } else {
            None
        },
        None => None,
    }
}

/// The slot after a sequence of publishes, applied in order, starting from `slot`.
pub open spec fn after_publishes(slot: Slot, writes: Seq<(Seq<u8>, u64)>) -> Slot
    decreases writes.len(),
{
    if writes.len() == 0 {
        slot
    } else {
        publish_on(after_publishes(slot, writes.drop_last()), writes.last().0, writes.last().1)
    }
}

/// The freshness cache. Readers copy the payload out; it is never shared.
#[derive(Clone)]
pub struct Cache {
    slot: Option<(Vec<u8>, u64)>,
}

impl View for Cache {
    type V = Slot;

    closed spec fn view(&self) -> Slot {
        match self.slot {
            Some((payload, captured_ms)) => Some((payload@, captured_ms)),
            None => None,
        }
    }
}

impl Cache {
    /// An empty cache.
    pub fn new() -> (r: Self)
        ensures
            r@ == None::<(Seq<u8>, u64)>,
    {
        Cache { slot: None }
    }

    /// Replaces the stored reading with `data`, captured at `now_ms`.
    pub fn set(&mut self, data: Vec<u8>, now_ms: u64)
        ensures
            final(self)@ == publish_on(old(self)@, data@, now_ms),
    {
        self.slot = Some((data, now_ms));
    }

    /// A copy of the stored payload if it is at most `duration_ms` old at
    /// `now_ms`; nothing otherwise. Never waits.
    pub fn get_if_valid(&self, duration_ms: u64, now_ms: u64) -> (r: Option<Vec<u8>>)
        ensures
            r matches Some(d) ==> fresh_payload(self@, duration_ms, now_ms) == Some(d@),
            r is None ==> fresh_payload(self@, duration_ms, now_ms) is None,
    {
        match &self.slot {
            Some((data, captured_ms)) => {
                let elapsed: u64 = if now_ms >= *captured_ms {
                    now_ms - *captured_ms
                } else {
                    0
                };
                if elapsed <= duration_ms {
                    Some(data.clone())
                } else {
                    None
                }
            },
            None => None,
        }
    }
}

/// Publishing and then reading back: a threshold at least the time between
/// the two calls gives the published payload, a smaller one gives nothing.
pub proof fn lemma_publish_then_read(
    before: Slot,
    payload: Seq<u8>,
    published_ms: u64,
    threshold_ms: u64,
    read_ms: u64,
)
    requires
        published_ms <= read_ms,
    ensures
        read_ms - published_ms <= threshold_ms ==> fresh_payload(
            publish_on(before, payload, published_ms),
            threshold_ms,
            read_ms,
        ) == Some(payload),
        read_ms - published_ms > threshold_ms ==> fresh_payload(
            publish_on(before, payload, published_ms),
            threshold_ms,
            read_ms,
        ) is None,
{
}

/// However many publishes run, in whatever order they are serialised, the
/// cache ends holding exactly one whole reading: that of the last one applied.
pub proof fn lemma_publishes_leave_last(slot: Slot, writes: Seq<(Seq<u8>, u64)>)
    requires
        writes.len() > 0,
    ensures
        after_publishes(slot, writes) == Some(writes.last()),
{
}

} // verus!
