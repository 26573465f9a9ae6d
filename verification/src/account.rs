use vstd::prelude::*;

verus! {

/// What an instruction reads of an account handed to the program: its
/// address, the program that owns it, whether it signed the transaction,
/// and its data bytes.
pub struct AccountView {
    pub key: [u8; 32],
    pub owner: [u8; 32],
    pub is_signer: bool,
    pub data: Vec<u8>,
}

} // verus!
