use vstd::arithmetic::div_mod::{
    lemma_add_mod_noop, lemma_mod_bound, lemma_mod_self_0, lemma_mod_sub_multiples_vanish,
    lemma_small_mod,
};
use vstd::prelude::*;
use vstd::string::StringExecFns;

use crate::settings::GlobalSettings;

verus! {

/// How the frame rate is limited.
#[derive(Clone, Copy, PartialEq, Eq, Debug, Structural)]
pub enum FpsMode {
    /// Pacing is left to the display's vertical sync.
    VSync,
    /// No limit at all.
    Uncapped,
    /// A fixed target in frames per second; a target of 0 means no limit.
    Manual(u32),
}

/// The display's buffer-swap policy.
#[derive(Clone, Copy, PartialEq, Eq, Debug, Structural)]
pub enum PresentMode {
    AutoVsync,
    AutoNoVsync,
    Fifo,
    FifoRelaxed,
    Immediate,
    Mailbox,
}

/// The presentation mode that a manual switch moves to from `mode`; the six
/// modes form one cycle.
pub open spec fn present_mode_after(mode: PresentMode) -> PresentMode {
    match mode {
        PresentMode::Fifo => PresentMode::FifoRelaxed,
        PresentMode::FifoRelaxed => PresentMode::Immediate,
        PresentMode::Immediate => PresentMode::AutoVsync,
        PresentMode::AutoVsync => PresentMode::AutoNoVsync,
        PresentMode::AutoNoVsync => PresentMode::Mailbox,
        PresentMode::Mailbox => PresentMode::Fifo,
    }
}

pub fn next_present_mode(mode: PresentMode) -> (r: PresentMode)
    ensures
        r == present_mode_after(mode),
{
    match mode {
        PresentMode::Fifo => PresentMode::FifoRelaxed,
        PresentMode::FifoRelaxed => PresentMode::Immediate,
        PresentMode::Immediate => PresentMode::AutoVsync,
        PresentMode::AutoVsync => PresentMode::AutoNoVsync,
        PresentMode::AutoNoVsync => PresentMode::Mailbox,
        PresentMode::Mailbox => PresentMode::Fifo,
    }
}

/// The presentation mode that goes with a cap mode: synced presentation for
/// `VSync`, tearing-capable presentation otherwise, so that the governor's own
/// wait does not fight the driver's pacing.
pub open spec fn present_mode_of(mode: FpsMode) -> PresentMode {
    match mode {
        FpsMode::VSync => PresentMode::Fifo,
        _ => PresentMode::Immediate,
    }
}

pub fn present_mode_for(mode: FpsMode) -> (r: PresentMode)
    ensures
        r == present_mode_of(mode),
{
    match mode {
        FpsMode::VSync => PresentMode::Fifo,
        FpsMode::Uncapped | FpsMode::Manual(_) => PresentMode::Immediate,
    }
}

/// Index of the first entry at or after `k` equal to `x`, or -1 if there is none.
pub open spec fn position_from(presets: Seq<FpsMode>, x: FpsMode, k: int) -> int
    decreases presets.len() - k,
{
    if k < 0 || k >= presets.len() {
        -1
    } else if presets[k] == x {
        k
    } else {
        position_from(presets, x, k + 1)
    }
}

/// Index of the first entry equal to `x`, or -1 if `x` is not in the list.
pub open spec fn position_of(presets: Seq<FpsMode>, x: FpsMode) -> int {
    position_from(presets, x, 0)
}

/// The preset that follows `current`: the entry after its first occurrence,
/// wrapping at the end of the list; the first entry if `current` is absent.
pub open spec fn preset_after(presets: Seq<FpsMode>, current: FpsMode) -> FpsMode
    recommends
        presets.len() > 0,
{
    let i = position_of(presets, current);
    if i < 0 {
        presets[0]
    } else {
        presets[(i + 1) % (presets.len() as int)]
    }
}

/// Picks the preset after `current` in `presets` (see `preset_after`).
pub fn next_preset(presets: &[FpsMode], current: FpsMode) -> (r: FpsMode)
    requires
        presets@.len() > 0,
    ensures
        r == preset_after(presets@, current),
{
    let n = presets.len();
    let mut i: usize = 0;
    while i < n
        invariant
            n == presets@.len(),
            0 <= i <= n,
            position_of(presets@, current) == position_from(presets@, current, i as int),
        decreases n - i,
    {
        if presets[i] == current {
            let j: usize = if i + 1 == n { 0 } else { i + 1 };
            proof {
                if i + 1 == n {
                    lemma_mod_self_0(n as int);
                } else {
                    lemma_small_mod((i + 1) as nat, n as nat);
                }
            }
            return presets[j];
        }
        i = i + 1;
    }
    presets[0]
}

proof fn lemma_position_found(presets: Seq<FpsMode>, x: FpsMode, k: int, i: int)
    requires
        0 <= k <= i < presets.len(),
        presets[i] == x,
        forall|j: int| k <= j < i ==> presets[j] != x,
    ensures
        position_from(presets, x, k) == i,
    decreases i - k,
{
    if k < i {
        lemma_position_found(presets, x, k + 1, i);
    }
}

proof fn lemma_position_absent(presets: Seq<FpsMode>, x: FpsMode, k: int)
    requires
        0 <= k <= presets.len(),
        forall|j: int| k <= j < presets.len() ==> presets[j] != x,
    ensures
        position_from(presets, x, k) == -1,
    decreases presets.len() - k,
{
    if k < presets.len() {
        lemma_position_absent(presets, x, k + 1);
    }
}

/// Cycling is total: the first occurrence of any listed mode is followed by
/// the next entry of the list (the first entry after the last one), and a mode
/// that is not listed is followed by the first entry.
pub proof fn lemma_preset_cycle_total(presets: Seq<FpsMode>, x: FpsMode)
    requires
        presets.len() > 0,
    ensures
        forall|i: int|
            0 <= i < presets.len() && #[trigger] presets[i] == x && (forall|j: int|
                0 <= j < i ==> presets[j] != x) ==> preset_after(presets, x) == presets[(i + 1)
                % (presets.len() as int)],
        (forall|j: int| 0 <= j < presets.len() ==> presets[j] != x) ==> preset_after(presets, x)
            == presets[0],
{
    assert forall|i: int|
        0 <= i < presets.len() && #[trigger] presets[i] == x && (forall|j: int|
            0 <= j < i ==> presets[j] != x) implies preset_after(presets, x) == presets[(i + 1)
        % (presets.len() as int)] by {
        lemma_position_found(presets, x, 0, i);
    }
    if forall|j: int| 0 <= j < presets.len() ==> presets[j] != x {
        lemma_position_absent(presets, x, 0);
    }
}

/// The mode reached from `start` after `n` cycling steps.
pub open spec fn cycle_steps(presets: Seq<FpsMode>, start: FpsMode, n: nat) -> FpsMode
    decreases n,
{
    if n == 0 {
        start
    } else {
        preset_after(presets, cycle_steps(presets, start, (n - 1) as nat))
    }
}

proof fn lemma_cycle_steps_index(presets: Seq<FpsMode>, i: int, n: nat)
    requires
        presets.no_duplicates(),
        0 <= i < presets.len(),
    ensures
        cycle_steps(presets, presets[i], n) == presets[(i + n) % (presets.len() as int)],
    decreases n,
{
    let len = presets.len() as int;
    if n == 0 {
        lemma_small_mod(i as nat, len as nat);
    } else {
        lemma_cycle_steps_index(presets, i, (n - 1) as nat);
        let k = (i + n - 1) % len;
        lemma_mod_bound(i + n - 1, len);
        lemma_position_found(presets, presets[k], 0, k);
        lemma_add_mod_noop(i + n - 1, 1, len);
        if len > 1 {
            lemma_small_mod(1, len as nat);
        } else {
            lemma_mod_bound(k + 1, len);
            lemma_mod_bound(i + n, len);
        }
    }
}

/// In a list without repeated entries, cycling from any listed mode comes
/// back to it after exactly as many steps as the list has entries, and not
/// before.
pub proof fn lemma_cycle_returns(presets: Seq<FpsMode>, start: FpsMode)
    requires
        presets.no_duplicates(),
        presets.contains(start),
    ensures
        cycle_steps(presets, start, presets.len()) == start,
        forall|n: nat| 0 < n < presets.len() ==> cycle_steps(presets, start, n) != start,
{
    let len = presets.len() as int;
    let i = choose|i: int| 0 <= i < presets.len() && presets[i] == start;
    lemma_cycle_steps_index(presets, i, presets.len());
    lemma_add_mod_noop(i, len, len);
    lemma_mod_self_0(len);
    lemma_small_mod(i as nat, len as nat);
    assert forall|n: nat| 0 < n < presets.len() implies cycle_steps(presets, start, n) != start by {
        lemma_cycle_steps_index(presets, i, n);
        lemma_mod_bound(i + n, len);
        if i + n < len {
            lemma_small_mod((i + n) as nat, len as nat);
        } else {
            lemma_mod_sub_multiples_vanish(i + n, len);
            lemma_small_mod((i + n - len) as nat, len as nat);
        }
    }
}

/// The mode that is stored when `mode` is asked for: vertical sync whenever
/// the override is set.
pub open spec fn coerced(mode: FpsMode, force_vsync: bool) -> FpsMode {
    if force_vsync {
        FpsMode::VSync
    } else {
        mode
    }
}

/// The presets that the cycling input action walks through.
pub open spec fn reference_preset_seq() -> Seq<FpsMode> {
    seq![
        FpsMode::VSync,
        FpsMode::Uncapped,
        FpsMode::Manual(1000),
        FpsMode::Manual(720),
        FpsMode::Manual(540),
        FpsMode::Manual(480),
        FpsMode::Manual(360),
        FpsMode::Manual(240),
        FpsMode::Manual(144),
        FpsMode::Manual(120),
        FpsMode::Manual(60),
        FpsMode::Manual(30),
        FpsMode::Manual(20),
    ]
}

pub fn reference_presets() -> (r: Vec<FpsMode>)
    ensures
        r@ == reference_preset_seq(),
{
    vec![
        FpsMode::VSync,
        FpsMode::Uncapped,
        FpsMode::Manual(1000),
        FpsMode::Manual(720),
        FpsMode::Manual(540),
        FpsMode::Manual(480),
        FpsMode::Manual(360),
        FpsMode::Manual(240),
        FpsMode::Manual(144),
        FpsMode::Manual(120),
        FpsMode::Manual(60),
        FpsMode::Manual(30),
        FpsMode::Manual(20),
    ]
}

/// The active frame-rate cap. The presentation mode is always derived from
/// it, so the two can never disagree.
#[derive(Debug)]
pub struct FpsCap {
    mode: FpsMode,
}

impl View for FpsCap {
    type V = FpsMode;

    closed spec fn view(&self) -> FpsMode {
        self.mode
    }
}

impl Default for FpsCap {
    fn default() -> (r: FpsCap)
        ensures
            r@ == FpsMode::VSync,
    {
        FpsCap { mode: FpsMode::VSync }
    }
}

impl FpsCap {
    pub fn current(&self) -> (r: FpsMode)
        ensures
            r == self@,
    {
        self.mode
    }

    pub fn present_mode(&self) -> (r: PresentMode)
        ensures
            r == present_mode_of(self@),
    {
        present_mode_for(self.mode)
    }

    /// Selects `mode`, or vertical sync if the settings force it.
    pub fn set(&mut self, mode: FpsMode, settings: &GlobalSettings)
        ensures
            final(self)@ == coerced(mode, settings.force_vsync),
    {
        self.mode = if settings.force_vsync {
            FpsMode::VSync
        } else {
            mode
        };
    }

    /// Moves to the preset after the current mode and returns the presentation
    /// mode that the display must use from now on.
    pub fn cycle(&mut self, presets: &[FpsMode], settings: &GlobalSettings) -> (r: PresentMode)
        requires
            presets@.len() > 0,
        ensures
            final(self)@ == coerced(preset_after(presets@, old(self)@), settings.force_vsync),
            r == present_mode_of(final(self)@),
    {
        let next = next_preset(presets, self.mode);
        self.set(next, settings);
        self.present_mode()
    }
}

/// The character of a decimal digit.
pub open spec fn digit_char(d: int) -> char {
    seq!['0', '1', '2', '3', '4', '5', '6', '7', '8', '9'][d]
}

/// The decimal numeral of `n`, without leading zeros.
pub open spec fn decimal_of(n: nat) -> Seq<char>
    decreases n,
{
    if n < 10 {
        seq![digit_char(n as int)]
    } else {
        decimal_of(n / 10).push(digit_char((n % 10) as int))
    }
}

fn digit_str(d: u32) -> (r: &'static str)
    requires
        d < 10,
    ensures
        r@ == seq![digit_char(d as int)],
{
    if d == 0 {
        proof {
            reveal_strlit("0");
        }
        "0"
    } else if d == 1 {
        proof {
            reveal_strlit("1");
        }
        "1"
    } else if d == 2 {
        proof {
            reveal_strlit("2");
        }
        "2"
    } else if d == 3 {
        proof {
            reveal_strlit("3");
        }
        "3"
    } else if d == 4 {
        proof {
            reveal_strlit("4");
        }
        "4"
    } else if d == 5 {
        proof {
            reveal_strlit("5");
        }
        "5"
    } else if d == 6 {
        proof {
            reveal_strlit("6");
        }
        "6"
    } else if d == 7 {
        proof {
            reveal_strlit("7");
        }
        "7"
    } else if d == 8 {
        proof {
            reveal_strlit("8");
        }
        "8"
    } else {
        proof {
            reveal_strlit("9");
        }
        "9"
    }
}

/// Appends the decimal numeral of `n` to `out`.
pub fn push_decimal(out: &mut String, n: u32)
    ensures
        final(out)@ == old(out)@ + decimal_of(n as nat),
    decreases n,
{
    if n >= 10 {
        push_decimal(out, n / 10);
    }
    out.append(digit_str(n % 10));
    proof {
        if n < 10 {
            assert(n % 10 == n);
        }
    }
}

/// The text shown for a cap mode.
pub open spec fn label_of(mode: FpsMode) -> Seq<char> {
    match mode {
        FpsMode::VSync => seq!['V', 'S', 'y', 'n', 'c'],
        FpsMode::Uncapped => seq!['U', 'n', 'c', 'a', 'p', 'p', 'e', 'd'],
        FpsMode::Manual(rate) => decimal_of(rate as nat) + seq![' ', 'F', 'P', 'S'],
    }
}

impl FpsMode {
    pub fn label(&self) -> (r: String)
        ensures
            r@ == label_of(*self),
    {
        match self {
            FpsMode::VSync => {
                proof {
                    reveal_strlit("VSync");
                }
                String::from_str("VSync")
            },
            FpsMode::Uncapped => {
                proof {
                    reveal_strlit("Uncapped");
                }
                String::from_str("Uncapped")
            },
            FpsMode::Manual(rate) => {
                let mut out = String::new();
                push_decimal(&mut out, *rate);
                proof {
                    reveal_strlit(" FPS");
                }
                out.append(" FPS");
                assert(out@ =~= label_of(*self));
                out
            },
        }
    }
}

} // verus!
