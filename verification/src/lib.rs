//! Typed, freely copyable handles for a compositor's windows ("views") and
//! display outputs, together with the marshaling rules a safe wrapper must
//! apply to what the native compositor library hands back: a null array or
//! string is an ordinary "empty" answer, arrays of raw handle values are read
//! out in order, and the one refusable operation (replacing an output's view
//! stack) reports success or failure as a value.

pub mod handle;
pub mod types;
