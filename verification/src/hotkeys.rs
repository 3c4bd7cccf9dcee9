use std::collections::HashSet;
use vstd::prelude::*;

use crate::events::HotkeyAction;

verus! {

broadcast use vstd::std_specs::hash::group_hash_axioms;

/// `nCode` value with which the system hands a keyboard event to a low-level hook.
pub const HC_ACTION: i32 = 0;

/// Window messages that a low-level keyboard hook receives.
pub const WM_KEYDOWN: u32 = 0x0100;

pub const WM_KEYUP: u32 = 0x0101;

pub const WM_SYSKEYDOWN: u32 = 0x0104;

pub const WM_SYSKEYUP: u32 = 0x0105;

/// Virtual-key codes of the left and right Windows keys.
pub const VK_LWIN: u32 = 0x5B;

pub const VK_RWIN: u32 = 0x5C;

/// Virtual-key code of the digit key `1`; the digits `1` to `9` follow it.
pub const VK_DIGIT_ONE: u32 = 0x31;

/// Virtual-key code of the digit key `9`.
pub const VK_DIGIT_NINE: u32 = 0x39;

/// The desktop number written on a digit key: `1` to `9` for the keys `1` to `9`
/// (the key `0` selects nothing).
pub open spec fn spec_digit(vk_code: u32) -> Option<u32> {
    if VK_DIGIT_ONE <= vk_code <= VK_DIGIT_NINE {
        Some((vk_code - 0x30) as u32)
    } else {
        None
    }
}

pub open spec fn spec_is_win_key(vk_code: u32) -> bool {
    vk_code == VK_LWIN || vk_code == VK_RWIN
}

pub open spec fn is_key_down_message(message: u32) -> bool {
    message == WM_KEYDOWN || message == WM_SYSKEYDOWN
}

pub open spec fn is_key_up_message(message: u32) -> bool {
    message == WM_KEYUP || message == WM_SYSKEYUP
}

/// The hotkey that a key press denotes: Win+digit switches to that desktop,
/// Win+Shift+digit moves the focused window there and follows it.
pub open spec fn spec_decode(win_down: bool, vk_code: u32, shift_down: bool) -> Option<HotkeyAction> {
    if !win_down {
        None
    } else {
        match spec_digit(vk_code) {
            None => None,
            Some(d) => Some(
                if shift_down {
                    HotkeyAction::MoveFocusedAndSwitch(d)
                } else {
                    HotkeyAction::SwitchToDesktop(d)
                },
            ),
        }
    }
}

/// Maps a virtual-key code to the desktop number of its digit key.
pub fn digit_from_vk(vk_code: u32) -> (r: Option<u32>)
    ensures
        r == spec_digit(vk_code),
        r is Some <==> 0x31 <= vk_code <= 0x39,
        r matches Some(d) ==> 1 <= d <= 9 && vk_code == d + 0x30,
{
    proof {
        law_digit_keys(vk_code);
    }
    if VK_DIGIT_ONE <= vk_code && vk_code <= VK_DIGIT_NINE {
        Some(vk_code - 0x30)
    } else {
        None
    }
}

/// Whether the key is one of the two Windows keys.
pub fn is_win_key(vk_code: u32) -> (r: bool)
    ensures
        r == spec_is_win_key(vk_code),
        r <==> vk_code == 0x5B || vk_code == 0x5C,
{
    vk_code == VK_LWIN || vk_code == VK_RWIN
}

/// One notification of the low-level keyboard hook, as plain values: the hook
/// code, the window message (the `wParam` cut to 32 bits), the virtual-key
/// code, and whether Shift was held at that moment.
#[derive(Debug, Clone, Copy, PartialEq, Eq)]
pub struct KeyEvent {
    pub code: i32,
    pub message: u32,
    pub vk_code: u32,
    pub shift_down: bool,
}

/// What the hook does with a key event: swallow it (`suppress`) or hand it on
/// to the next hook, and which hotkey, if any, to report to the application.
#[derive(Debug, Clone, Copy, PartialEq, Eq)]
pub struct KeyVerdict {
    pub suppress: bool,
    pub hotkey: Option<HotkeyAction>,
}

/// The abstract state of the keyboard hook.
pub struct HookView {
    /// A Windows key is held down.
    pub win_key_down: bool,
    /// A hotkey fired since the Windows key went down, so its release is swallowed.
    pub hotkey_triggered: bool,
    /// Keys whose press was swallowed as a hotkey and whose release is still due.
    pub consumed: Set<u32>,
}

pub open spec fn pass_on() -> KeyVerdict {
    KeyVerdict { suppress: false, hotkey: None }
}

pub open spec fn swallow() -> KeyVerdict {
    KeyVerdict { suppress: true, hotkey: None }
}

/// The hook's transition: the state after a key event, and the verdict on it.
pub open spec fn key_step(s: HookView, e: KeyEvent) -> (HookView, KeyVerdict) {
    let down = is_key_down_message(e.message);
    let up = is_key_up_message(e.message);
    let win = spec_is_win_key(e.vk_code);
    if e.code != HC_ACTION {
        (s, pass_on())
    } else if down && win {
        (HookView { win_key_down: true, ..s }, swallow())
    } else if up && win {
        let released = HookView { win_key_down: false, hotkey_triggered: false, ..s };
        if s.hotkey_triggered {
            (released, swallow())
        } else if s.consumed.contains(e.vk_code) {
            (HookView { consumed: s.consumed.remove(e.vk_code), ..released }, swallow())
        } else {
            (released, pass_on())
        }
    } else if down {
        match spec_decode(s.win_key_down, e.vk_code, e.shift_down) {
            Some(action) => (
                HookView {
                    hotkey_triggered: true,
                    consumed: s.consumed.insert(e.vk_code),
                    ..s
                },
                KeyVerdict {
                    suppress: true,
                    hotkey: if s.consumed.contains(e.vk_code) { None } else { Some(action) },
                },
            ),
            None => (s, pass_on()),
        }
    } else if up && s.consumed.contains(e.vk_code) {
        (HookView { consumed: s.consumed.remove(e.vk_code), ..s }, swallow())
    } else {
        (s, pass_on())
    }
}

/// The hook's invariant: only digit keys are ever held as consumed.
pub open spec fn hook_inv(s: HookView) -> bool {
    forall|k: u32| s.consumed.contains(k) ==> #[trigger] spec_digit(k) is Some
}

/// The state that the keyboard hook keeps between key events.
pub struct HookState {
    win_key_down: bool,
    hotkey_triggered: bool,
    consumed_keys: HashSet<u32>,
}

impl View for HookState {
    type V = HookView;

    closed spec fn view(&self) -> HookView {
        HookView {
            win_key_down: self.win_key_down,
            hotkey_triggered: self.hotkey_triggered,
            consumed: self.consumed_keys@,
        }
    }
}

impl HookState {
    /// The state before the first key event: no key held, nothing consumed.
    pub fn new() -> (r: HookState)
        ensures
            !r@.win_key_down,
            !r@.hotkey_triggered,
            r@.consumed == Set::<u32>::empty(),
            hook_inv(r@),
    {
        HookState { win_key_down: false, hotkey_triggered: false, consumed_keys: HashSet::new() }
    }

    /// Whether a Windows key is currently held down.
    pub fn win_pressed(&self) -> (r: bool)
        ensures
            r == self@.win_key_down,
    {
        self.win_key_down
    }

    /// Records that the press of `vk_code` was swallowed; true when it was not
    /// recorded before (the first press, not an auto-repeat).
    pub fn mark_key_consumed(&mut self, vk_code: u32) -> (r: bool)
        ensures
            r == !old(self)@.consumed.contains(vk_code),
            final(self)@ == (HookView { consumed: old(self)@.consumed.insert(vk_code), ..old(self)@ }),
    {
        self.consumed_keys.insert(vk_code)
    }

    /// Forgets a swallowed press of `vk_code`; true when one was recorded, so
    /// that its release is to be swallowed too.
    pub fn unmark_key_consumed(&mut self, vk_code: u32) -> (r: bool)
        ensures
            r == old(self)@.consumed.contains(vk_code),
            final(self)@ == (HookView { consumed: old(self)@.consumed.remove(vk_code), ..old(self)@ }),
    {
        self.consumed_keys.remove(&vk_code)
    }

    /// The hotkey that pressing `vk_code` denotes in this state, given whether
    /// Shift is held.
    pub fn decode_hotkey(&self, vk_code: u32, shift_down: bool) -> (r: Option<HotkeyAction>)
        ensures
            r == spec_decode(self@.win_key_down, vk_code, shift_down),
    {
        if !self.win_pressed() {
            return None;
        }
        match digit_from_vk(vk_code) {
            None => None,
            Some(desktop_number) => {
                if shift_down {
                    Some(HotkeyAction::MoveFocusedAndSwitch(desktop_number))
                } else {
                    Some(HotkeyAction::SwitchToDesktop(desktop_number))
                }
            },
        }
    }

    /// Handles one event of the low-level keyboard hook. The Windows key is
    /// always swallowed when pressed; on release it is swallowed when a hotkey
    /// fired while it was held. Win+digit presses are swallowed and reported
    /// (auto-repeats are swallowed silently), and so are their releases.
    /// Everything else is handed on.
    pub fn process_key(&mut self, event: KeyEvent) -> (r: KeyVerdict)
        ensures
            (final(self)@, r) == key_step(old(self)@, event),
            hook_inv(old(self)@) ==> hook_inv(final(self)@),
    {
        if event.code != HC_ACTION {
            return KeyVerdict { suppress: false, hotkey: None };
        }
        let vk = event.vk_code;
        let is_keydown = event.message == WM_KEYDOWN || event.message == WM_SYSKEYDOWN;
        let is_keyup = event.message == WM_KEYUP || event.message == WM_SYSKEYUP;
        let is_win = is_win_key(vk);

        if is_keydown && is_win {
            self.win_key_down = true;
        }
        if is_keyup && is_win {
            self.win_key_down = false;
            let was_triggered = self.hotkey_triggered;
            self.hotkey_triggered = false;
            if was_triggered {
                return KeyVerdict { suppress: true, hotkey: None };
            }
        }
        if is_keydown && is_win {
            return KeyVerdict { suppress: true, hotkey: None };
        }
        if is_keydown {
            if let Some(action) = self.decode_hotkey(vk, event.shift_down) {
                self.hotkey_triggered = true;
                let first = self.mark_key_consumed(vk);
                return KeyVerdict { suppress: true, hotkey: if first { Some(action) } else { None } };
            }
        }
        if is_keyup && self.unmark_key_consumed(vk) {
            return KeyVerdict { suppress: true, hotkey: None };
        }
        assert(self@.consumed =~= old(self)@.consumed);
        KeyVerdict { suppress: false, hotkey: None }
    }
}

/// A press of a Windows key is always swallowed; it marks the key as held and
/// changes nothing else.
pub proof fn law_win_press_swallowed(s: HookView, e: KeyEvent)
    requires
        e.code == HC_ACTION,
        is_key_down_message(e.message),
        spec_is_win_key(e.vk_code),
    ensures
        key_step(s, e).1 == swallow(),
        key_step(s, e).0 == (HookView { win_key_down: true, ..s }),
{
}

/// The release of a Windows key is swallowed exactly when a hotkey fired while
/// it was held, and reports nothing; afterwards no Windows key counts as held
/// and the next release is handed on unless another hotkey fires first.
pub proof fn law_win_release(s: HookView, e: KeyEvent)
    requires
        hook_inv(s),
        e.code == HC_ACTION,
        is_key_up_message(e.message),
        spec_is_win_key(e.vk_code),
    ensures
        key_step(s, e).1 == (KeyVerdict { suppress: s.hotkey_triggered, hotkey: None }),
        key_step(s, e).0 == (HookView { win_key_down: false, hotkey_triggered: false, ..s }),
{
    assert(spec_digit(e.vk_code) is None);
    assert(!s.consumed.contains(e.vk_code));
}

/// A run of the hook: the state after the events in order, and the verdicts.
pub open spec fn run_keys(s: HookView, events: Seq<KeyEvent>) -> (HookView, Seq<KeyVerdict>)
    decreases events.len(),
{
    if events.len() == 0 {
        (s, Seq::<KeyVerdict>::empty())
    } else {
        let next = key_step(s, events[0]);
        let rest = run_keys(next.0, events.drop_first());
        (rest.0, seq![next.1] + rest.1)
    }
}

proof fn lemma_run_keys_prepend(s: HookView, e: KeyEvent, rest: Seq<KeyEvent>)
    ensures
        run_keys(s, seq![e] + rest) == (
            run_keys(key_step(s, e).0, rest).0,
            seq![key_step(s, e).1] + run_keys(key_step(s, e).0, rest).1,
        ),
{
    assert((seq![e] + rest).drop_first() =~= rest);
    assert((seq![e] + rest)[0] == e);
}

/// `k` auto-repeats of a swallowed digit press and then its release: all of
/// them are swallowed silently, and the release forgets the key.
proof fn lemma_repeats_then_release(t: HookView, press: KeyEvent, release: KeyEvent, k: nat)
    requires
        t.win_key_down,
        t.hotkey_triggered,
        t.consumed.contains(press.vk_code),
        spec_digit(press.vk_code) is Some,
        press.code == HC_ACTION,
        is_key_down_message(press.message),
        release.code == HC_ACTION,
        is_key_up_message(release.message),
        release.vk_code == press.vk_code,
    ensures
        run_keys(t, Seq::new(k, |i: int| press).push(release)).0 == (HookView {
            consumed: t.consumed.remove(press.vk_code),
            ..t
        }),
        run_keys(t, Seq::new(k, |i: int| press).push(release)).1 =~= Seq::new(k + 1, |i: int| swallow()),
    decreases k,
{
    let events = Seq::new(k, |i: int| press).push(release);
    if k == 0 {
        assert(events =~= seq![release] + Seq::<KeyEvent>::empty());
        lemma_run_keys_prepend(t, release, Seq::<KeyEvent>::empty());
    } else {
        let rest = Seq::new((k - 1) as nat, |i: int| press).push(release);
        assert(events =~= seq![press] + rest);
        lemma_run_keys_prepend(t, press, rest);
        assert(t.consumed.insert(press.vk_code) =~= t.consumed);
        assert(key_step(t, press).0 == t);
        lemma_repeats_then_release(t, press, release, (k - 1) as nat);
    }
}

/// While a Windows key is held, a digit key reports its hotkey once per press:
/// the first press is swallowed and reported, any number `k` of auto-repeats
/// are swallowed silently, the release is swallowed too and forgets the key,
/// and the next press reports again.
pub proof fn law_hotkey_once_per_press(
    s: HookView,
    vk_code: u32,
    shift_down: bool,
    down: u32,
    up: u32,
    k: nat,
)
    requires
        s.win_key_down,
        spec_digit(vk_code) is Some,
        !s.consumed.contains(vk_code),
        is_key_down_message(down),
        is_key_up_message(up),
    ensures
        ({
            let press = KeyEvent { code: HC_ACTION, message: down, vk_code, shift_down };
            let release = KeyEvent { code: HC_ACTION, message: up, vk_code, shift_down };
            let run = run_keys(s, seq![press] + Seq::new(k, |i: int| press).push(release));
            let reported = KeyVerdict { suppress: true, hotkey: spec_decode(true, vk_code, shift_down) };
            &&& reported.hotkey is Some
            &&& run.1.len() == k + 2
            &&& run.1[0] == reported
            &&& forall|i: int| 1 <= i < k + 2 ==> #[trigger] run.1[i] == swallow()
            &&& run.0 == (HookView { hotkey_triggered: true, ..s })
            &&& key_step(run.0, press).1 == reported
        }),
{
    let press = KeyEvent { code: HC_ACTION, message: down, vk_code, shift_down };
    let release = KeyEvent { code: HC_ACTION, message: up, vk_code, shift_down };
    let rest = Seq::new(k, |i: int| press).push(release);
    lemma_run_keys_prepend(s, press, rest);
    let first = key_step(s, press);
    lemma_repeats_then_release(first.0, press, release, k);
    assert(first.0.consumed.remove(vk_code) =~= s.consumed);
    let run = run_keys(s, seq![press] + rest);
    assert forall|i: int| 1 <= i < k + 2 implies #[trigger] run.1[i] == swallow() by {
        assert(run.1[i] == run_keys(first.0, rest).1[i - 1]);
    }
}

/// Events that the system hands over with another code than `HC_ACTION` are
/// handed on and change nothing.
pub proof fn law_other_codes_pass(s: HookView, e: KeyEvent)
    requires
        e.code != HC_ACTION,
    ensures
        key_step(s, e) == (s, pass_on()),
{
}

/// While no Windows key is held, every key other than the Windows keys whose
/// press was not swallowed is handed on, and the state stays as it is.
pub proof fn law_plain_keys_pass(s: HookView, e: KeyEvent)
    requires
        !s.win_key_down,
        !spec_is_win_key(e.vk_code),
        !s.consumed.contains(e.vk_code),
    ensures
        key_step(s, e) == (s, pass_on()),
{
}

/// The digit keys `1` to `9` (codes 0x31 to 0x39) name the desktops 1 to 9,
/// each its own: a key names desktop `d` exactly when its code is `0x30 + d`,
/// and no other key names a desktop.
pub proof fn law_digit_keys(vk_code: u32)
    ensures
        spec_digit(vk_code) is Some <==> 0x31 <= vk_code <= 0x39,
        spec_digit(vk_code) matches Some(d) ==> 1 <= d <= 9 && vk_code == d + 0x30,
        forall|d: u32| 1 <= d <= 9 ==> #[trigger] spec_digit((d + 0x30) as u32) == Some(d),
{
}

/// With a Windows key held, the digit key of desktop `d` denotes moving the
/// focused window there when Shift is held and switching there otherwise;
/// without a Windows key, or for any other key, a press denotes no hotkey.
pub proof fn law_decode_hotkey(win_down: bool, vk_code: u32, shift_down: bool)
    ensures
        spec_decode(win_down, vk_code, shift_down) is Some <==> win_down && 0x31 <= vk_code <= 0x39,
        win_down && 0x31 <= vk_code <= 0x39 ==> spec_decode(win_down, vk_code, shift_down) == Some(
            if shift_down {
                HotkeyAction::MoveFocusedAndSwitch((vk_code - 0x30) as u32)
            } else {
                HotkeyAction::SwitchToDesktop((vk_code - 0x30) as u32)
            },
        ),
{
}

/// A press that is neither a Windows key nor a Win+digit hotkey is handed on
/// and leaves the hook's state exactly as it was, whether or not a Windows
/// key is held.
pub proof fn law_non_hotkey_press_passes(s: HookView, e: KeyEvent)
    requires
        e.code == HC_ACTION,
        e.message == WM_KEYDOWN || e.message == WM_SYSKEYDOWN,
        e.vk_code != VK_LWIN && e.vk_code != VK_RWIN,
        !s.win_key_down || e.vk_code < 0x31 || e.vk_code > 0x39,
    ensures
        key_step(s, e) == (s, KeyVerdict { suppress: false, hotkey: None }),
{
    law_decode_hotkey(s.win_key_down, e.vk_code, e.shift_down);
}

/// The flag that makes the Windows key's release swallowed is raised only by
/// a Win+digit press.
pub proof fn law_only_hotkeys_raise_trigger(s: HookView, e: KeyEvent)
    requires
        !s.hotkey_triggered,
        key_step(s, e).0.hotkey_triggered,
    ensures
        e.code == HC_ACTION,
        e.message == WM_KEYDOWN || e.message == WM_SYSKEYDOWN,
        s.win_key_down,
        0x31 <= e.vk_code <= 0x39,
{
    law_decode_hotkey(s.win_key_down, e.vk_code, e.shift_down);
}

/// Win pressed, another key that is no hotkey pressed and released, Win
/// released: all four are handed on except the Windows key's press, and in
/// particular the Windows key's release reaches the system (so that, for
/// instance, Win+E still opens the Explorer and Win alone opens Start).
pub proof fn law_win_with_other_key_released_normally(s: HookView, win: u32, other: u32)
    requires
        hook_inv(s),
        !s.hotkey_triggered,
        win == VK_LWIN || win == VK_RWIN,
        other != VK_LWIN && other != VK_RWIN,
        other < 0x31 || other > 0x39,
    ensures
        ({
            let events = seq![
                KeyEvent { code: HC_ACTION, message: WM_KEYDOWN, vk_code: win, shift_down: false },
                KeyEvent { code: HC_ACTION, message: WM_KEYDOWN, vk_code: other, shift_down: false },
                KeyEvent { code: HC_ACTION, message: WM_KEYUP, vk_code: other, shift_down: false },
                KeyEvent { code: HC_ACTION, message: WM_KEYUP, vk_code: win, shift_down: false },
            ];
            let run = run_keys(s, events);
            &&& run.1 == seq![
                KeyVerdict { suppress: true, hotkey: None },
                KeyVerdict { suppress: false, hotkey: None },
                KeyVerdict { suppress: false, hotkey: None },
                KeyVerdict { suppress: false, hotkey: None },
            ]
            &&& !run.0.win_key_down
            &&& !run.0.hotkey_triggered
            &&& run.0.consumed == s.consumed
        }),
{
    let e0 = KeyEvent { code: HC_ACTION, message: WM_KEYDOWN, vk_code: win, shift_down: false };
    let e1 = KeyEvent { code: HC_ACTION, message: WM_KEYDOWN, vk_code: other, shift_down: false };
    let e2 = KeyEvent { code: HC_ACTION, message: WM_KEYUP, vk_code: other, shift_down: false };
    let e3 = KeyEvent { code: HC_ACTION, message: WM_KEYUP, vk_code: win, shift_down: false };
    law_digit_keys(other);
    law_digit_keys(win);
    assert(!s.consumed.contains(other));
    assert(!s.consumed.contains(win));
    let s1 = key_step(s, e0).0;
    let s2 = key_step(s1, e1).0;
    let s3 = key_step(s2, e2).0;
    law_non_hotkey_press_passes(s1, e1);
    lemma_run_keys_prepend(s3, e3, Seq::<KeyEvent>::empty());
    assert(seq![e3].drop_first() =~= Seq::<KeyEvent>::empty());
    assert(seq![e3] + Seq::<KeyEvent>::empty() =~= seq![e3]);
    lemma_run_keys_prepend(s2, e2, seq![e3]);
    lemma_run_keys_prepend(s1, e1, seq![e2] + seq![e3]);
    lemma_run_keys_prepend(s, e0, seq![e1] + (seq![e2] + seq![e3]));
    assert(seq![e0, e1, e2, e3] =~= seq![e0] + (seq![e1] + (seq![e2] + seq![e3])));
    let run = run_keys(s, seq![e0, e1, e2, e3]);
    assert(run.1 =~= seq![key_step(s, e0).1, key_step(s1, e1).1, key_step(s2, e2).1, key_step(s3, e3).1]);
}

/// The Windows keys are the left and right Windows keys (virtual-key codes
/// 0x5B and 0x5C); a press comes as `WM_KEYDOWN` (0x0100) or, with Alt,
/// `WM_SYSKEYDOWN` (0x0104), a release as `WM_KEYUP` (0x0101) or
/// `WM_SYSKEYUP` (0x0105); the hook acts only on `HC_ACTION` (0).
pub proof fn law_key_codes(vk_code: u32, message: u32)
    ensures
        spec_is_win_key(vk_code) <==> vk_code == 0x5B || vk_code == 0x5C,
        is_key_down_message(message) <==> message == 0x0100 || message == 0x0104,
        is_key_up_message(message) <==> message == 0x0101 || message == 0x0105,
        HC_ACTION == 0,
{
}

} // verus!
