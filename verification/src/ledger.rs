use vstd::prelude::*;
use vstd::hash_map::StringHashMap;
use vstd::string::StringExecFns;
use crate::error::SignError;

verus! {

/// Length of the admission window in nanoseconds: one minute.
pub const WINDOW: u64 = 60_000_000_000;

/// Whether a request of `caller` at time `now` is admitted by `ledger`.
///
/// A caller without an entry is admitted. One with an entry is admitted
/// when its last admitted request lies strictly before `now - WINDOW`,
/// taken over the integers: at `last + WINDOW` exactly the request is still
/// refused, and so is every request before `WINDOW` has passed on the clock.
pub open spec fn admits(ledger: Map<Seq<char>, u64>, caller: Seq<char>, now: u64) -> bool {
    ledger.contains_key(caller) ==> ledger[caller] < now - WINDOW
}

/// The ledger after a request of `caller` at `now`: an admitted request is
/// recorded, a refused one leaves the ledger as it was.
pub open spec fn ledger_after(ledger: Map<Seq<char>, u64>, caller: Seq<char>, now: u64) -> Map<
    Seq<char>,
    u64,
> {
    if admits(ledger, caller, now) {
        ledger.insert(caller, now)
    } else {
        ledger
    }
}

/// The admission rule on plain values: `last` is the time of the caller's
/// last admitted request, if there is one.
pub fn window_elapsed(last: Option<u64>, now: u64) -> (admitted: bool)
    ensures
        admitted <==> (last matches Some(t) ==> t < now - WINDOW),
{
    match last {
        None => true,
        Some(t) => now >= WINDOW && t < now - WINDOW,
    }
}

/// For each caller, the time of its last admitted request.
pub struct AccessLedger {
    entries: StringHashMap<u64>,
}

impl View for AccessLedger {
    type V = Map<Seq<char>, u64>;

    closed spec fn view(&self) -> Map<Seq<char>, u64> {
        self.entries@
    }
}

impl AccessLedger {
    /// A ledger without entries.
    pub fn new() -> (ledger: AccessLedger)
        ensures
            ledger@ == Map::<Seq<char>, u64>::empty(),
    {
        AccessLedger { entries: StringHashMap::new() }
    }

    /// The time of `caller`'s last admitted request, if it ever had one.
    pub fn last_admitted(&self, caller: &str) -> (last: Option<u64>)
        ensures
            last == (if self@.contains_key(caller@) {
                Some(self@[caller@])
            } else {
                None
            }),
    {
        match self.entries.get(caller) {
            Some(t) => Some(*t),
            None => None,
        }
    }

    /// Admits or refuses a request of `caller` at `now`, and records an
    /// admitted one. A refused request changes nothing.
    pub fn check_and_record(&mut self, caller: &str, now: u64) -> (outcome: Result<(), SignError>)
        ensures
            outcome is Ok <==> admits(old(self)@, caller@, now),
            outcome is Err ==> outcome == Err::<(), SignError>(SignError::RateLimited),
            final(self)@ == ledger_after(old(self)@, caller@, now),
            forall|other: Seq<char>| #[trigger]
                old(self)@.contains_key(other) ==> final(self)@.contains_key(other) && old(
                    self,
                )@[other] <= final(self)@[other],
    {
        let last = self.last_admitted(caller);
        if window_elapsed(last, now) {
            self.entries.insert(String::from_str(caller), now);
            Ok(())
        } else {
            Err(SignError::RateLimited)
        }
    }
}

/// A second request of a caller, after one admitted at `t1 < t2`, is
/// admitted when more than one window lies between the two, and refused
/// when at most one window does.
pub proof fn lemma_window_decides(ledger: Map<Seq<char>, u64>, caller: Seq<char>, t1: u64, t2: u64)
    requires
        ledger.contains_key(caller),
        ledger[caller] == t1,
        t1 < t2,
    ensures
        admits(ledger, caller, t2) <==> t2 - t1 > WINDOW,
        !admits(ledger, caller, t2) <==> t2 - t1 <= WINDOW,
        admits(ledger, caller, t2) ==> ledger_after(ledger, caller, t2)[caller] == t2,
        !admits(ledger, caller, t2) ==> ledger_after(ledger, caller, t2) == ledger,
{
}

/// After a request of `caller` admitted at `t1`, its next request at a later
/// time `t2` is admitted when `t2 - t1` exceeds the window and refused
/// otherwise, whatever the ledger held before.
pub proof fn lemma_second_request(ledger: Map<Seq<char>, u64>, caller: Seq<char>, t1: u64, t2: u64)
    requires
        admits(ledger, caller, t1),
        t1 < t2,
    ensures
        admits(ledger_after(ledger, caller, t1), caller, t2) <==> t2 - t1 > WINDOW,
        !admits(ledger_after(ledger, caller, t1), caller, t2) <==> t2 - t1 <= WINDOW,
{
    lemma_window_decides(ledger_after(ledger, caller, t1), caller, t1, t2);
}

/// A caller that the ledger does not know is admitted at any time, and the
/// time of that request is recorded.
pub proof fn lemma_first_request_admitted(ledger: Map<Seq<char>, u64>, caller: Seq<char>, now: u64)
    requires
        !ledger.contains_key(caller),
    ensures
        admits(ledger, caller, now),
        ledger_after(ledger, caller, now) == ledger.insert(caller, now),
        ledger_after(ledger, caller, now)[caller] == now,
{
}

/// No request removes an entry or lowers one: whoever has an entry keeps
/// it, with a time that is at least the one before. The entry of another
/// caller than the one asking keeps its time.
pub proof fn lemma_entries_persist(
    ledger: Map<Seq<char>, u64>,
    caller: Seq<char>,
    now: u64,
    other: Seq<char>,
)
    requires
        ledger.contains_key(other),
    ensures
        ledger_after(ledger, caller, now).contains_key(other),
        ledger[other] <= ledger_after(ledger, caller, now)[other],
        other != caller ==> ledger_after(ledger, caller, now)[other] == ledger[other],
{
}

} // verus!
