use vstd::prelude::*;

verus! {

/// The single failure the command codec can report.
///
/// It covers every way a command buffer can be malformed: an empty buffer
/// (no tag byte), a truncated amount field (fewer than eight bytes after the
/// tag), and an unrecognized tag byte. Callers receive no finer diagnostic:
/// the codec fails fast with this one kind and the caller is expected to
/// abort the whole requested operation.
#[derive(Clone, Copy, Debug, PartialEq, Eq, Structural)]
pub enum EscrowError {
    InvalidInstruction,
}

} // verus!
