//! Session PINs: six-digit codes that a host shows and a viewer must present, valid
//! for ten minutes after they are issued.

use vstd::prelude::*;
use crate::text::{decimal, decimal_string, digit_char};

verus! {

/// How long an issued PIN stays valid, in nanoseconds (ten minutes).
pub const PIN_VALIDITY_NS: u64 = 600000000000;

/// Smallest PIN code drawn.
pub const PIN_LOW: u32 = 100000;

/// Bound (exclusive) of the PIN codes drawn.
pub const PIN_HIGH: u32 = 999999;

/// A number drawn uniformly from `low..high` with `rand`'s thread-local generator
/// (`rand::thread_rng()` and `Rng::gen_range`). `gen_range` panics on an empty
/// range, hence the `requires`; the contract states only that the result lies in
/// the range.
#[verifier::external_body]
fn random_in_range(low: u32, high: u32) -> (n: u32)
    requires
        low < high,
    ensures
        low <= n < high,
{
    rand::Rng::gen_range(&mut rand::thread_rng(), low..high)
}

/// Nanoseconds between `issued_at` and `now`; zero when the clock reads earlier.
pub open spec fn elapsed_ns(issued_at: u64, now: u64) -> nat {
    if now >= issued_at {
        (now - issued_at) as nat
    } else {
        0
    }
}

/// Whether a PIN issued at `issued_at` is still valid at `now`.
pub open spec fn is_fresh(issued_at: u64, now: u64) -> bool {
    elapsed_ns(issued_at, now) < PIN_VALIDITY_NS as nat
}

/// A store's state: the current PIN's text and its issue time, if one was issued.
pub type PinState = Option<(Seq<char>, u64)>;

/// The PIN a viewer must present at `now`, if a valid one exists.
pub open spec fn active_pin(state: PinState, now: u64) -> Option<Seq<char>> {
    match state {
        Some((pin, issued_at)) => if is_fresh(issued_at, now) {
            Some(pin)
        } else {
            None
        },
        None => None,
    }
}

/// Whether `candidate` is accepted at `now`.
pub open spec fn pin_accepted(state: PinState, candidate: Seq<char>, now: u64) -> bool {
    active_pin(state, now) == Some(candidate)
}

/// The state after issuing `code` at `now`.
pub open spec fn issued(code: u32, now: u64) -> PinState {
    Some((decimal(code as nat), now))
}

/// The state and answer of a request for the current PIN at `now`, where `code` is
/// the code drawn if a new PIN must be issued.
pub open spec fn current_pin_outcome(state: PinState, now: u64, code: u32) -> (PinState, Seq<char>) {
    match active_pin(state, now) {
        Some(p) => (state, p),
        None => (issued(code, now), decimal(code as nat)),
    }
}

/// Whether `pin` is the text of a code the store can draw.
pub open spec fn is_drawable_pin(pin: Seq<char>) -> bool {
    exists|code: u32| PIN_LOW <= code < PIN_HIGH && pin == decimal(code as nat)
}

/// The current PIN and when it was issued.
struct IssuedPin {
    pin: String,
    issued_at_ns: u64,
}

/// Holds the session PIN of this host.
pub struct PinStore {
    current: Option<IssuedPin>,
}

impl PinStore {
    /// The store's state.
    pub closed spec fn state(&self) -> PinState {
        match self.current {
            Some(p) => Some((p.pin@, p.issued_at_ns)),
            None => None,
        }
    }

    /// A store with no PIN issued yet.
    pub fn new() -> (s: PinStore)
        ensures
            s.state() == None::<(Seq<char>, u64)>,
    {
        PinStore { current: None }
    }

    /// Issues `code` at `now`, replacing any previous PIN, and returns its text.
    pub fn install_pin(&mut self, code: u32, now_ns: u64) -> (pin: String)
        ensures
            pin@ == decimal(code as nat),
            final(self).state() == issued(code, now_ns),
    {
        let pin = decimal_string(code as u64);
        self.current = Some(IssuedPin { pin: pin.clone(), issued_at_ns: now_ns });
        pin
    }

    /// Draws a new random PIN at `now` and makes it the current one.
    pub fn generate_pin(&mut self, now_ns: u64) -> (pin: String)
        ensures
            is_drawable_pin(pin@),
            final(self).state() == Some((pin@, now_ns)),
    {
        let code = random_in_range(PIN_LOW, PIN_HIGH);
        let pin = self.install_pin(code, now_ns);
        assert(PIN_LOW <= code < PIN_HIGH && pin@ == decimal(code as nat));
        pin
    }

    /// The valid PIN at `now`, if any.
    fn active(&self, now_ns: u64) -> (p: Option<String>)
        ensures
            match p {
                Some(s) => active_pin(self.state(), now_ns) == Some(s@),
                None => active_pin(self.state(), now_ns) is None,
            },
    {
        match &self.current {
            Some(ip) => {
                let elapsed = if now_ns >= ip.issued_at_ns {
                    now_ns - ip.issued_at_ns
                } else {
                    0
                };
                if elapsed < PIN_VALIDITY_NS {
                    Some(ip.pin.clone())
                } else {
                    None
                }
            },
            None => None,
        }
    }

    /// The PIN to show at `now`: the current one while it is valid, otherwise
    /// `code` issued as a new PIN.
    pub fn current_pin_with(&mut self, now_ns: u64, code: u32) -> (pin: String)
        ensures
            (final(self).state(), pin@) == current_pin_outcome(old(self).state(), now_ns, code),
    {
        match self.active(now_ns) {
            Some(p) => p,
            None => self.install_pin(code, now_ns),
        }
    }

    /// The PIN to show at `now`: the current one while it is valid, otherwise a newly
    /// drawn random PIN.
    pub fn current_pin(&mut self, now_ns: u64) -> (pin: String)
        ensures
            match active_pin(old(self).state(), now_ns) {
                Some(p) => pin@ == p && final(self).state() == old(self).state(),
                None => is_drawable_pin(pin@) && final(self).state() == Some((pin@, now_ns)),
            },
    {
        match self.active(now_ns) {
            Some(p) => p,
            None => self.generate_pin(now_ns),
        }
    }

    /// Whether a PIN presented by a viewer at `now` matches the valid PIN.
    pub fn validate_pin(&self, pin: &str, now_ns: u64) -> (ok: bool)
        ensures
            ok == pin_accepted(self.state(), pin@, now_ns),
    {
        match self.active(now_ns) {
            Some(p) => p == pin.to_owned(),
            None => false,
        }
    }
}

/// Every PIN the store draws has exactly six decimal digits.
pub proof fn law_drawn_pin_has_six_digits(code: u32)
    requires
        PIN_LOW <= code < PIN_HIGH,
    ensures
        decimal(code as nat).len() == 6,
        forall|i: int| 0 <= i < 6 ==> '0' <= #[trigger] decimal(code as nat)[i] <= '9',
{
    reveal_with_fuel(decimal, 7);
    let n = code as nat;
    assert(n / 10 / 10 / 10 / 10 / 10 < 10);
    assert(n / 10 / 10 / 10 / 10 / 10 >= 1);
    let d = decimal(n);
    assert(d == seq![
        digit_char(n / 10 / 10 / 10 / 10 / 10),
        digit_char(n / 10 / 10 / 10 / 10 % 10),
        digit_char(n / 10 / 10 / 10 % 10),
        digit_char(n / 10 / 10 % 10),
        digit_char(n / 10 % 10),
        digit_char(n % 10),
    ]);
}

/// A freshly issued PIN is accepted for exactly the validity window, and no other
/// text is accepted meanwhile.
pub proof fn law_issued_pin_window(code: u32, issued_at: u64, now: u64, candidate: Seq<char>)
    ensures
        pin_accepted(issued(code, issued_at), decimal(code as nat), now) <==> elapsed_ns(
            issued_at,
            now,
        ) < PIN_VALIDITY_NS as nat,
        candidate != decimal(code as nat) ==> !pin_accepted(issued(code, issued_at), candidate, now),
{
}

/// A PIN issued at `issued_at` is accepted, and no other text is, until ten minutes
/// (600 000 000 000 ns) have passed since it was issued; from then on nothing is
/// accepted. A clock that reads earlier than the issue time counts as no time passed.
pub proof fn law_pin_valid_for_ten_minutes(
    code: u32,
    issued_at: u64,
    now: u64,
    candidate: Seq<char>,
)
    ensures
        issued_at <= now ==> (pin_accepted(issued(code, issued_at), candidate, now) <==> (candidate
            == decimal(code as nat) && (now as int) - (issued_at as int) < 600000000000)),
        now < issued_at ==> (pin_accepted(issued(code, issued_at), candidate, now) <==> candidate
            == decimal(code as nat)),
{
}

/// The PIN a host shows is accepted at the moment it is shown.
pub proof fn law_shown_pin_accepted(state: PinState, now: u64, code: u32)
    ensures
        ({
            let (next, shown) = current_pin_outcome(state, now, code);
            pin_accepted(next, shown, now)
        }),
{
}

/// Asking for the current PIN again while it is valid changes nothing and gives the
/// same PIN.
pub proof fn law_current_pin_stable(state: PinState, now: u64, later: u64, code1: u32, code2: u32)
    requires
        now <= later,
        ({
            let (next, shown) = current_pin_outcome(state, now, code1);
            pin_accepted(next, shown, later)
        }),
    ensures
        ({
            let (next, shown) = current_pin_outcome(state, now, code1);
            current_pin_outcome(next, later, code2) == (next, shown)
        }),
{
}

/// Once the validity window has passed, no PIN is accepted.
pub proof fn law_expired_pin_refused(code: u32, issued_at: u64, now: u64, candidate: Seq<char>)
    requires
        elapsed_ns(issued_at, now) >= PIN_VALIDITY_NS as nat,
    ensures
        !pin_accepted(issued(code, issued_at), candidate, now),
{
}

} // verus!
