use vstd::prelude::*;

verus! {

/// Why a call made by this program into another one failed.
#[derive(Clone, Copy, Debug, PartialEq, Eq, Structural)]
pub enum InteractDappError {
    CpiToVaultsProgramFailed,
    SwapFailed,
    CpiToLendingProgramFailed,
}

} // verus!
