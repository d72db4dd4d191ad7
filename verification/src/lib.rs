//! A single-toast notification state holder and its rendering rule.
//!
//! `ToastMgr` owns the state of at most one transient toast notification
//! (info, success, warning, error, or waiting) and exposes setters that
//! replace the current toast unconditionally, a `turn_off` that hides it,
//! and a `will_show` query. The `view` module turns a snapshot of that
//! state into an abstract description of what should be rendered; a host
//! UI layer translates that description into concrete markup.

mod laws;
mod manager;
mod view;

pub use laws::lemma_last_call_wins;
pub use laws::lemma_new_hidden;
pub use laws::lemma_new_waiting_msg;
pub use laws::lemma_show_info_renders;
pub use laws::lemma_turn_off_hides;
pub use laws::lemma_turn_off_idempotent;
pub use laws::lemma_waiting_ignores_message;
pub use manager::ToastKind;
pub use manager::ToastMgr;
pub use manager::ToastStateView;
pub use manager::default_waiting_msg;
pub use manager::spec_default_waiting_msg;
pub use manager::spec_new;
pub use manager::spec_show;
pub use manager::spec_turn_off;
pub use manager::spec_waiting_toast;
pub use manager::spec_will_show;
pub use view::ToastCard;
pub use view::ToastCardView;
pub use view::ToastColor;
pub use view::spec_toast_view;
pub use view::toast_view;
