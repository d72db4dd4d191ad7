//! The toast notification state holder.

use vstd::prelude::*;

verus! {

/// The category of toast a `ToastMgr` currently holds. `Nothing` is the
/// sentinel for "no toast to show".
#[derive(Clone, Copy, Debug, PartialEq, Eq, Structural)]
pub enum ToastKind {
    Nothing,
    Info,
    Success,
    Warning,
    Error,
    Waiting,
}

/// Mathematical snapshot of a `ToastMgr`: the same four fields, with the
/// strings abstracted to character sequences.
#[verifier::ext_equal]
pub struct ToastStateView {
    pub show_toast: bool,
    pub toast_message: Seq<char>,
    pub toast_type: ToastKind,
    pub wait_msg: Seq<char>,
}

/// The text shown for the waiting kind when no custom message was configured.
pub open spec fn spec_default_waiting_msg() -> Seq<char> {
    "Please wait while your request is processed..."@
}

/// The freshly created state: hidden, no kind, empty message, and the
/// configured (or default) waiting message.
pub open spec fn spec_new(waiting_msg: Option<Seq<char>>) -> ToastStateView {
    ToastStateView {
        show_toast: false,
        toast_message: Seq::<char>::empty(),
        toast_type: ToastKind::Nothing,
        wait_msg: match waiting_msg {
            Some(m) => m,
            None => spec_default_waiting_msg(),
        },
    }
}

/// Effect of any of the four message-carrying setters: the given kind and
/// message replace whatever was there, the toast becomes visible, and the
/// configured waiting message is kept.
pub open spec fn spec_show(s: ToastStateView, kind: ToastKind, msg: Seq<char>) -> ToastStateView {
    ToastStateView {
        show_toast: true,
        toast_message: msg,
        toast_type: kind,
        wait_msg: s.wait_msg,
    }
}

/// Effect of `waiting_toast`: kind becomes `Waiting` and the toast becomes
/// visible; the message fields are left untouched.
pub open spec fn spec_waiting_toast(s: ToastStateView) -> ToastStateView {
    ToastStateView {
        show_toast: true,
        toast_message: s.toast_message,
        toast_type: ToastKind::Waiting,
        wait_msg: s.wait_msg,
    }
}

/// Effect of `turn_off`: the toast is hidden and its kind reset, whatever
/// the starting state; the message fields are left untouched.
pub open spec fn spec_turn_off(s: ToastStateView) -> ToastStateView {
    ToastStateView {
        show_toast: false,
        toast_message: s.toast_message,
        toast_type: ToastKind::Nothing,
        wait_msg: s.wait_msg,
    }
}

/// Whether a toast is scheduled to be shown.
pub open spec fn spec_will_show(s: ToastStateView) -> bool {
    s.show_toast && s.toast_type != ToastKind::Nothing
}

/// Manages at most one toast notification: whether it shows, its body text,
/// its kind, and the fixed text used by the waiting kind.
#[derive(Clone, Debug, PartialEq)]
pub struct ToastMgr {
    show_toast: bool,
    toast_message: String,
    toast_type: ToastKind,
    wait_msg: String,
}

impl View for ToastMgr {
    type V = ToastStateView;

    closed spec fn view(&self) -> ToastStateView {
        ToastStateView {
            show_toast: self.show_toast,
            toast_message: self.toast_message@,
            toast_type: self.toast_type,
            wait_msg: self.wait_msg@,
        }
    }
}

/// The fixed waiting text used when `new` receives no custom message.
pub fn default_waiting_msg() -> (r: String)
    ensures
        r@ == spec_default_waiting_msg(),
{
    String::from_str("Please wait while your request is processed...")
}

impl ToastMgr {
    /// Creates a manager with no toast showing. The waiting kind will
    /// display `waiting_msg` if one is given, and the fixed default text
    /// otherwise.
    pub fn new(waiting_msg: Option<String>) -> (r: Self)
        ensures
            r@ == spec_new(match waiting_msg {
                Some(m) => Some(m@),
                None => None,
            }),
    {
        let wait_msg = match waiting_msg {
            Some(m) => m,
            None => default_waiting_msg(),
        };
        ToastMgr {
            show_toast: false,
            toast_message: String::new(),
            toast_type: ToastKind::Nothing,
            wait_msg,
        }
    }

    /// Shows an info toast with the given message, replacing any prior toast.
    pub fn show_info(&mut self, msg: String)
        ensures
            final(self)@ == spec_show(old(self)@, ToastKind::Info, msg@),
    {
        self.toast_message = msg;
        self.toast_type = ToastKind::Info;
        self.show_toast = true;
    }

    /// Shows a success toast with the given message, replacing any prior toast.
    pub fn show_success(&mut self, msg: String)
        ensures
            final(self)@ == spec_show(old(self)@, ToastKind::Success, msg@),
    {
        self.toast_message = msg;
        self.toast_type = ToastKind::Success;
        self.show_toast = true;
    }

    /// Shows a warning toast with the given message, replacing any prior toast.
    pub fn show_warning(&mut self, msg: String)
        ensures
            final(self)@ == spec_show(old(self)@, ToastKind::Warning, msg@),
    {
        self.toast_message = msg;
        self.toast_type = ToastKind::Warning;
        self.show_toast = true;
    }

    /// Shows an error toast with the given message, replacing any prior toast.
    pub fn show_error(&mut self, msg: String)
        ensures
            final(self)@ == spec_show(old(self)@, ToastKind::Error, msg@),
    {
        self.toast_message = msg;
        self.toast_type = ToastKind::Error;
        self.show_toast = true;
    }

    /// Shows the waiting toast. The stored body message is left as it is:
    /// the waiting kind displays the configured waiting message instead.
    pub fn waiting_toast(&mut self)
        ensures
            final(self)@ == spec_waiting_toast(old(self)@),
    {
        self.toast_type = ToastKind::Waiting;
        self.show_toast = true;
    }

    /// Hides the current toast, if any, and resets its kind.
    pub fn turn_off(&mut self)
        ensures
            final(self)@ == spec_turn_off(old(self)@),
    {
        if self.show_toast {
            self.show_toast = false;
        }
        if self.toast_type != ToastKind::Nothing {
            self.toast_type = ToastKind::Nothing;
        }
    }

    /// Whether a toast is scheduled to be shown.
    pub fn will_show(&self) -> (r: bool)
        ensures
            r == spec_will_show(self@),
    {
        self.show_toast && self.toast_type != ToastKind::Nothing
    }

    /// Whether the toast should currently render.
    pub fn is_visible(&self) -> (r: bool)
        ensures
            r == self@.show_toast,
    {
        self.show_toast
    }

    /// The kind of the current toast.
    pub fn kind(&self) -> (r: ToastKind)
        ensures
            r == self@.toast_type,
    {
        self.toast_type
    }

    /// The stored body message.
    pub fn message(&self) -> (r: &String)
        ensures
            r@ == self@.toast_message,
    {
        &self.toast_message
    }

    /// The configured waiting message.
    pub fn waiting_msg(&self) -> (r: &String)
        ensures
            r@ == self@.wait_msg,
    {
        &self.wait_msg
    }
}

} // verus!
