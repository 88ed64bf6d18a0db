//! Desktop password-manager client logic: session and account state,
//! menu / tray / window dispatch, the Magnify launcher, toasts, TOTP
//! display and the small stores and formatters around them. Window system,
//! rendering and SDK work stay with the caller, which performs the effects
//! these functions hand back.

pub mod account_switcher;
pub mod backend;
pub mod ctx;
pub mod debug_fmt;
pub mod domain;
pub mod drop_down;
pub mod export;
pub mod icons;
pub mod instance_lock;
pub mod magnify;
pub mod mock;
pub mod platform;
pub mod repo;
pub mod secret_field;
pub mod session;
pub mod sidebar;
pub mod toast;
pub mod totp;
pub mod virtual_list;
pub mod window;
