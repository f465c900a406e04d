//! Bookkeeping of the input settings that the input watcher follows in the
//! `com.system76.CosmicComp` configuration namespace.
//!
//! Reading the configuration store and computing the events of a change are
//! done by the caller; this module decides what a changed key means and
//! keeps the last value seen of each setting, against which the next change
//! of that setting is compared.

use vstd::prelude::*;
use vstd::string::*;

use crate::error::{error_message, Error, ErrorView};
use crate::text::str_equal;

verus! {

/// The configuration namespace that holds the input settings.
pub const INPUTNAMESPACE: &'static str = "com.system76.CosmicComp";

/// The version of the configuration namespace.
pub const VERSION: u64 = 1;

/// An input setting that the watcher follows.
#[derive(Debug, Clone, Copy, PartialEq, Eq, Structural)]
pub enum InputSetting {
    /// `input_touchpad`
    Touchpad,
    /// `input_default`, the mouse settings.
    Mouse,
    /// `xkb_config`, the keyboard layout.
    Keyboard,
    /// `keyboard_config`, the num-lock state.
    Numlock,
}

/// The setting that a configuration key names, if the watcher follows it.
pub open spec fn setting_of_key(key: Seq<char>) -> Option<InputSetting> {
    if key == "input_touchpad"@ {
        Some(InputSetting::Touchpad)
    } else if key == "input_default"@ {
        Some(InputSetting::Mouse)
    } else if key == "xkb_config"@ {
        Some(InputSetting::Keyboard)
    } else if key == "keyboard_config"@ {
        Some(InputSetting::Numlock)
    } else {
        None
    }
}

/// The setting that the changed configuration key `key` names, or `None`
/// for a key the watcher does not follow.
pub fn input_setting(key: &str) -> (r: Option<InputSetting>)
    ensures
        r == setting_of_key(key@),
{
    if str_equal(key, "input_touchpad") {
        Some(InputSetting::Touchpad)
    } else if str_equal(key, "input_default") {
        Some(InputSetting::Mouse)
    } else if str_equal(key, "xkb_config") {
        Some(InputSetting::Keyboard)
    } else if str_equal(key, "keyboard_config") {
        Some(InputSetting::Numlock)
    } else {
        None
    }
}

/// The report of a changed key that the watcher does not follow.
pub open spec fn unknown_key_report(key: Seq<char>) -> Seq<char> {
    "Unknown key found in Input (com.system76.CosmicComp): "@ + key
}

/// The line reported for a changed key that the watcher does not follow.
pub fn unknown_key_message(key: &str) -> (r: String)
    ensures
        r@ == unknown_key_report(key@),
{
    let mut s = String::from_str("Unknown key found in Input (com.system76.CosmicComp): ");
    s.append(key);
    s
}

/// The last value seen of each followed input setting: `I` is the type of the
/// touchpad and mouse settings, `X` that of the keyboard layout and `K` that
/// of the num-lock setting.
pub struct InputState<I, X, K> {
    pub touchpad: Option<I>,
    pub mouse: Option<I>,
    pub keyboard: Option<X>,
    pub numslock: Option<K>,
}

impl<I, X, K> InputState<I, X, K> {
    /// The state after the touchpad setting `new` was read.
    pub open spec fn with_touchpad(self, new: I) -> Self {
        InputState { touchpad: Some(new), ..self }
    }

    /// The state after the mouse setting `new` was read.
    pub open spec fn with_mouse(self, new: I) -> Self {
        InputState { mouse: Some(new), ..self }
    }

    /// The state after the keyboard layout `new` was read.
    pub open spec fn with_keyboard(self, new: X) -> Self {
        InputState { keyboard: Some(new), ..self }
    }

    /// The state after the num-lock setting `new` was read.
    pub open spec fn with_numslock(self, new: K) -> Self {
        InputState { numslock: Some(new), ..self }
    }

    /// A state that has seen the given values.
    pub fn new(touchpad: Option<I>, mouse: Option<I>, keyboard: Option<X>, numslock: Option<K>) -> (r:
        Self)
        ensures
            r == (InputState { touchpad, mouse, keyboard, numslock }),
    {
        InputState { touchpad, mouse, keyboard, numslock }
    }

    /// Records the touchpad setting just read and hands back the one seen
    /// before it, against which the change is compared; `None` when there
    /// was none, and then no change is reported.
    pub fn record_touchpad(&mut self, new: I) -> (previous: Option<I>)
        ensures
            previous == old(self).touchpad,
            *final(self) == old(self).with_touchpad(new),
    {
        let previous = self.touchpad.take();
        self.touchpad = Some(new);
        previous
    }

    /// Records the mouse setting just read and hands back the one seen
    /// before it; `None` when there was none.
    pub fn record_mouse(&mut self, new: I) -> (previous: Option<I>)
        ensures
            previous == old(self).mouse,
            *final(self) == old(self).with_mouse(new),
    {
        let previous = self.mouse.take();
        self.mouse = Some(new);
        previous
    }

    /// Records the keyboard layout just read and hands back the one to
    /// compare it with: the layout seen before it, or `default` when none
    /// was, so that the first layout read is always reported.
    pub fn record_keyboard(&mut self, new: X, default: X) -> (base: X)
        ensures
            base == (match old(self).keyboard {
                Some(k) => k,
                None => default,
            }),
            *final(self) == old(self).with_keyboard(new),
    {
        let previous = self.keyboard.take();
        self.keyboard = Some(new);
        previous.unwrap_or(default)
    }

    /// Records the num-lock setting just read and hands back the one seen
    /// before it; `None` when there was none.
    pub fn record_numslock(&mut self, new: K) -> (previous: Option<K>)
        ensures
            previous == old(self).numslock,
            *final(self) == old(self).with_numslock(new),
    {
        let previous = self.numslock.take();
        self.numslock = Some(new);
        previous
    }
}

/// What was read from the configuration store for a changed key.
pub enum Reading<I, X, K> {
    /// The touchpad setting (`input_touchpad`).
    Touchpad(I),
    /// The mouse setting (`input_default`).
    Mouse(I),
    /// The keyboard layout (`xkb_config`).
    Keyboard(X),
    /// The num-lock setting (`keyboard_config`).
    Numlock(K),
    /// The read failed with this message.
    Failed(String),
    /// Nothing was read, as for a key that the watcher does not follow.
    NotRead,
}

/// What the watcher does after one changed key.
pub enum InputAction<I, X, K> {
    /// Report the touchpad events of the change from this value to the one read.
    CompareTouchpad(I),
    /// Report the mouse events of the change from this value to the one read.
    CompareMouse(I),
    /// Report the keyboard events of the change from this layout to the one read.
    CompareKeyboard(X),
    /// Report the num-lock events of the change from this value to the one read.
    CompareNumlock(K),
    /// The first value of a setting was read: there is nothing to compare it with.
    Nothing,
    /// Print this line as a diagnostic.
    Report(String),
}

/// The reading fits the key: a followed key comes with a value of its own
/// setting or a failure; a key the watcher does not follow is not read.
pub open spec fn reading_fits<I, X, K>(setting: Option<InputSetting>, reading: Reading<I, X, K>) -> bool {
    match setting {
        None => reading is NotRead,
        Some(InputSetting::Touchpad) => reading is Touchpad || reading is Failed,
        Some(InputSetting::Mouse) => reading is Mouse || reading is Failed,
        Some(InputSetting::Keyboard) => reading is Keyboard || reading is Failed,
        Some(InputSetting::Numlock) => reading is Numlock || reading is Failed,
    }
}

impl<I, X, K> InputState<I, X, K> {
    /// The state after the changed key `key` was handled with `reading`:
    /// only a value read for a followed key is recorded.
    pub open spec fn after_key(self, key: Seq<char>, reading: Reading<I, X, K>) -> Self {
        if setting_of_key(key) is None {
            self
        } else {
            match reading {
                Reading::Touchpad(v) => self.with_touchpad(v),
                Reading::Mouse(v) => self.with_mouse(v),
                Reading::Keyboard(v) => self.with_keyboard(v),
                Reading::Numlock(v) => self.with_numslock(v),
                _ => self,
            }
        }
    }

    /// Handles one changed key of the input namespace, given what was read
    /// for it: records a value read and says what to compare it with,
    /// reports a failed read (keeping the last value), and reports a key
    /// that the watcher does not follow (keeping everything).
    pub fn on_key_changed(&mut self, key: &str, reading: Reading<I, X, K>, default_keyboard: X) -> (action:
        InputAction<I, X, K>)
        requires
            reading_fits(setting_of_key(key@), reading),
        ensures
            *final(self) == old(self).after_key(key@, reading),
            setting_of_key(key@) is None ==> (action matches InputAction::Report(line) && line@
                == unknown_key_report(key@)),
            setting_of_key(key@) is Some ==> match reading {
                Reading::Failed(source) => action matches InputAction::Report(line) && line@
                    == error_message(
                    ErrorView::ConfigRead { namespace: INPUTNAMESPACE@, key: key@, source: source@ },
                ),
                Reading::Touchpad(_) => action == match old(self).touchpad {
                    Some(o) => InputAction::<I, X, K>::CompareTouchpad(o),
                    None => InputAction::<I, X, K>::Nothing,
                },
                Reading::Mouse(_) => action == match old(self).mouse {
                    Some(o) => InputAction::<I, X, K>::CompareMouse(o),
                    None => InputAction::<I, X, K>::Nothing,
                },
                Reading::Keyboard(_) => action == InputAction::<I, X, K>::CompareKeyboard(
                    match old(self).keyboard {
                        Some(o) => o,
                        None => default_keyboard,
                    },
                ),
                Reading::Numlock(_) => action == match old(self).numslock {
                    Some(o) => InputAction::<I, X, K>::CompareNumlock(o),
                    None => InputAction::<I, X, K>::Nothing,
                },
                Reading::NotRead => false,
            },
    {
        if input_setting(key).is_none() {
            return InputAction::Report(unknown_key_message(key));
        }
        match reading {
            Reading::Failed(source) => InputAction::Report(
                Error::config_read(INPUTNAMESPACE, key, source).message(),
            ),
            Reading::Touchpad(v) => match self.record_touchpad(v) {
                Some(o) => InputAction::CompareTouchpad(o),
                None => InputAction::Nothing,
            },
            Reading::Mouse(v) => match self.record_mouse(v) {
                Some(o) => InputAction::CompareMouse(o),
                None => InputAction::Nothing,
            },
            Reading::Keyboard(v) => InputAction::CompareKeyboard(
                self.record_keyboard(v, default_keyboard),
            ),
            Reading::Numlock(v) => match self.record_numslock(v) {
                Some(o) => InputAction::CompareNumlock(o),
                None => InputAction::Nothing,
            },
            Reading::NotRead => InputAction::Nothing,
        }
    }
}

/// A failed read and a key that the watcher does not follow change nothing:
/// the next value read is still compared with the one recorded before.
pub proof fn lemma_failures_keep_the_baseline<I, X, K>(
    s: InputState<I, X, K>,
    key: Seq<char>,
    source: String,
    reading: Reading<I, X, K>,
)
    ensures
        s.after_key(key, Reading::Failed(source)) == s,
        setting_of_key(key) is None ==> s.after_key(key, reading) == s,
{
}

/// Recording one setting leaves the other three as they were.
pub proof fn lemma_record_keeps_other_settings<I, X, K>(
    s: InputState<I, X, K>,
    i: I,
    x: X,
    k: K,
)
    ensures
        s.with_touchpad(i).mouse == s.mouse && s.with_touchpad(i).keyboard == s.keyboard
            && s.with_touchpad(i).numslock == s.numslock,
        s.with_mouse(i).touchpad == s.touchpad && s.with_mouse(i).keyboard == s.keyboard
            && s.with_mouse(i).numslock == s.numslock,
        s.with_keyboard(x).touchpad == s.touchpad && s.with_keyboard(x).mouse == s.mouse
            && s.with_keyboard(x).numslock == s.numslock,
        s.with_numslock(k).touchpad == s.touchpad && s.with_numslock(k).mouse == s.mouse
            && s.with_numslock(k).keyboard == s.keyboard,
{
}

/// The next change of a setting is compared with the value recorded last
/// for it: what the next `record_*` call hands back is that value.
pub proof fn lemma_next_change_compares_with_last<I, X, K>(
    s: InputState<I, X, K>,
    i: I,
    x: X,
    default: X,
    k: K,
)
    ensures
        s.with_touchpad(i).touchpad == Some(i),
        s.with_mouse(i).mouse == Some(i),
        (match s.with_keyboard(x).keyboard {
            Some(prev) => prev,
            None => default,
        }) == x,
        s.with_numslock(k).numslock == Some(k),
{
}

/// Exactly the four keys `input_touchpad`, `input_default`, `xkb_config` and
/// `keyboard_config` are followed, each naming its own setting; every other
/// key names none.
pub proof fn lemma_followed_keys(key: Seq<char>)
    ensures
        setting_of_key(key) is Some <==> (key == "input_touchpad"@ || key == "input_default"@ || key
            == "xkb_config"@ || key == "keyboard_config"@),
        setting_of_key(key) == Some(InputSetting::Touchpad) <==> key == "input_touchpad"@,
        setting_of_key(key) == Some(InputSetting::Mouse) <==> key == "input_default"@,
        setting_of_key(key) == Some(InputSetting::Keyboard) <==> key == "xkb_config"@,
        setting_of_key(key) == Some(InputSetting::Numlock) <==> key == "keyboard_config"@,
{
    reveal_strlit("input_touchpad");
    reveal_strlit("input_default");
    reveal_strlit("xkb_config");
    reveal_strlit("keyboard_config");
    // The four keys have different lengths, so they are different keys.
    assert("input_touchpad"@.len() == 14);
    assert("input_default"@.len() == 13);
    assert("xkb_config"@.len() == 10);
    assert("keyboard_config"@.len() == 15);
}

/// Handling a changed key records at most the one setting that the value
/// read belongs to; the recorded values of the other settings stay as they
/// were, and a failure or an unfollowed key records nothing.
pub proof fn lemma_key_changes_only_its_setting<I, X, K>(
    s: InputState<I, X, K>,
    key: Seq<char>,
    reading: Reading<I, X, K>,
)
    requires
        reading_fits(setting_of_key(key), reading),
    ensures
        s.after_key(key, reading).touchpad == (match reading {
            Reading::Touchpad(v) => Some(v),
            _ => s.touchpad,
        }),
        s.after_key(key, reading).mouse == (match reading {
            Reading::Mouse(v) => Some(v),
            _ => s.mouse,
        }),
        s.after_key(key, reading).keyboard == (match reading {
            Reading::Keyboard(v) => Some(v),
            _ => s.keyboard,
        }),
        s.after_key(key, reading).numslock == (match reading {
            Reading::Numlock(v) => Some(v),
            _ => s.numslock,
        }),
{
}

/// The report of an unfollowed key ends with the key, after a fixed
/// prefix that names the namespace.
pub proof fn lemma_unknown_key_report_names_key(k1: Seq<char>, k2: Seq<char>)
    ensures
        unknown_key_report(k1).subrange(
            unknown_key_report(k1).len() - k1.len(),
            unknown_key_report(k1).len() as int,
        ) == k1,
        unknown_key_report(k1).len() - k1.len() == unknown_key_report(k2).len() - k2.len(),
        unknown_key_report(k1).subrange(0, unknown_key_report(k1).len() - k1.len())
            == unknown_key_report(k2).subrange(0, unknown_key_report(k2).len() - k2.len()),
{
    let p = "Unknown key found in Input (com.system76.CosmicComp): "@;
    assert(unknown_key_report(k1).subrange(p.len() as int, unknown_key_report(k1).len() as int) =~= k1);
    assert(unknown_key_report(k1).subrange(0, p.len() as int) =~= p);
    assert(unknown_key_report(k2).subrange(0, p.len() as int) =~= p);
}

} // verus!
