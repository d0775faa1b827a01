use vstd::prelude::*;

verus! {

/// The decode target of the enumeration-dispatch strategy.  `jsonrpc`
/// and `id` are presence markers — their wire content is not
/// interpreted, only that the field occurred matters — and `payload`
/// records which of the two mutually exclusive payload fields was
/// present: `Ok(())` for `result`, `Err(())` for `error`.
#[derive(Debug, Clone, Copy, PartialEq, Eq)]
pub struct ResponseKey {
    pub jsonrpc: (),
    pub id: (),
    pub payload: Result<(), ()>,
}

/// The decode target of the string-match strategy; the same shape as
/// [`ResponseKey`], kept as a distinct type so that the two strategies
/// can be timed and compared side by side.
#[derive(Debug, Clone, Copy, PartialEq, Eq)]
pub struct ResponseCow {
    pub jsonrpc: (),
    pub id: (),
    pub payload: Result<(), ()>,
}

} // verus!
