//! The instruction surface: one tag byte and a little-endian payload.

use vstd::prelude::*;
use vstd::bytes::{spec_u64_to_le_bytes, spec_u64_from_le_bytes, u64_to_le_bytes, u64_from_le_bytes};
use vstd::slice::{slice_index_get, slice_subrange};
use crate::error::{OpError, ZionError};
use crate::state::{SwapState, SwapStateView, spec_pack_state, spec_unpack_state};

verus! {

/// Every operation of the pool program.
#[derive(Clone, Copy, Debug)]
pub enum ZionInstruction {
    /// Initialize the pool.
    Initialize(Initialize),
    /// Deposit initial liquidity at raw market value, admin only.
    AdminDeposit(AdminDeposit),
    /// Deposit liquidity at the protocol's relative prices.
    Deposit(Deposit),
    /// Withdraw liquidity from the pool.
    Withdraw(Withdraw),
    /// Swap one pool asset for the other.
    Swap(Swap),
    /// Close the pool, admin only.
    ClosePool(),
}

/// Payload of [`ZionInstruction::Initialize`]: the full pool record.
#[derive(Clone, Copy, Debug)]
pub struct Initialize {
    /// The pool record to persist.
    pub swap_state: SwapState,
}

/// Payload of [`ZionInstruction::AdminDeposit`].
#[derive(Clone, Copy, Debug, PartialEq, Eq, Structural)]
pub struct AdminDeposit {
    /// Units of the first asset to deposit.
    pub token_a_deposit: u64,
    /// Units of the second asset to deposit.
    pub token_b_deposit: u64,
}

impl AdminDeposit {
    /// Serialized length of this payload.
    pub const LEN: usize = 16;
}

/// Payload of [`ZionInstruction::Deposit`].
#[derive(Clone, Copy, Debug, PartialEq, Eq, Structural)]
pub struct Deposit {
    /// Units of the first asset to deposit.
    pub token_a_deposit: u64,
    /// Units of the second asset to deposit.
    pub token_b_deposit: u64,
}

impl Deposit {
    /// Serialized length of this payload.
    pub const LEN: usize = 16;
}

/// Payload of [`ZionInstruction::Withdraw`].
#[derive(Clone, Copy, Debug, PartialEq, Eq, Structural)]
pub struct Withdraw {
    /// Units of the first asset to withdraw.
    pub token_a_withdraw: u64,
    /// Units of the second asset to withdraw.
    pub token_b_withdraw: u64,
}

impl Withdraw {
    /// Serialized length of this payload.
    pub const LEN: usize = 16;
}

/// Payload of [`ZionInstruction::Swap`].
#[derive(Clone, Copy, Debug, PartialEq, Eq, Structural)]
pub struct Swap {
    /// Units of the source asset handed in.
    pub amount: u64,
}

impl Swap {
    /// Serialized length of this payload.
    pub const LEN: usize = 8;
}

/// The mathematical image of a [`ZionInstruction`].
pub enum InstructionView {
    /// Initialize, with the record to persist.
    Initialize(SwapStateView),
    /// Admin deposit of the two asset amounts.
    AdminDeposit(u64, u64),
    /// User deposit of the two asset amounts.
    Deposit(u64, u64),
    /// Withdrawal of the two asset amounts.
    Withdraw(u64, u64),
    /// Swap of the given input amount.
    Swap(u64),
    /// Close the pool.
    ClosePool,
}

impl View for ZionInstruction {
    type V = InstructionView;

    open spec fn view(&self) -> InstructionView {
        match *self {
            ZionInstruction::Initialize(Initialize { swap_state }) => InstructionView::Initialize(
                swap_state@,
            ),
            ZionInstruction::AdminDeposit(
                AdminDeposit { token_a_deposit, token_b_deposit },
            ) => InstructionView::AdminDeposit(token_a_deposit, token_b_deposit),
            ZionInstruction::Deposit(Deposit { token_a_deposit, token_b_deposit }) => (
            InstructionView::Deposit(token_a_deposit, token_b_deposit)),
            ZionInstruction::Withdraw(Withdraw { token_a_withdraw, token_b_withdraw }) => (
            InstructionView::Withdraw(token_a_withdraw, token_b_withdraw)),
            ZionInstruction::Swap(Swap { amount }) => InstructionView::Swap(amount),
            ZionInstruction::ClosePool() => InstructionView::ClosePool,
        }
    }
}

/// The serialized form of an instruction: its tag byte and payload; an
/// empty buffer denotes ClosePool.
pub open spec fn spec_pack_instruction(i: InstructionView) -> Seq<u8> {
    match i {
        InstructionView::Initialize(s) => seq![0u8] + spec_pack_state(s),
        InstructionView::AdminDeposit(a, b) => seq![1u8] + spec_u64_to_le_bytes(a)
            + spec_u64_to_le_bytes(b),
        InstructionView::Deposit(a, b) => seq![2u8] + spec_u64_to_le_bytes(a)
            + spec_u64_to_le_bytes(b),
        InstructionView::Withdraw(a, b) => seq![3u8] + spec_u64_to_le_bytes(a)
            + spec_u64_to_le_bytes(b),
        InstructionView::Swap(a) => seq![4u8] + spec_u64_to_le_bytes(a),
        InstructionView::ClosePool => Seq::empty(),
    }
}

/// Decodes an instruction: an empty buffer is ClosePool; otherwise the
/// first byte selects the operation and the rest carries its payload. An
/// unknown tag or a short payload fails with the decode error; a bad
/// record under the Initialize tag fails as the record decode does.
pub open spec fn spec_unpack_instruction(d: Seq<u8>) -> Result<InstructionView, OpError> {
    if d.len() == 0 {
        Ok(InstructionView::ClosePool)
    } else if d[0] == 0 {
        match spec_unpack_state(d.skip(1)) {
            Ok(s) => Ok(InstructionView::Initialize(s)),
            Err(e) => Err(e),
        }
    } else if d[0] == 1 {
        if d.len() >= 17 {
            Ok(
                InstructionView::AdminDeposit(
                    spec_u64_from_le_bytes(d.subrange(1, 9)),
                    spec_u64_from_le_bytes(d.subrange(9, 17)),
                ),
            )
        } else {
            Err(OpError::Custom(ZionError::InvalidInstruction))
        }
    } else if d[0] == 2 {
        if d.len() >= 17 {
            Ok(
                InstructionView::Deposit(
                    spec_u64_from_le_bytes(d.subrange(1, 9)),
                    spec_u64_from_le_bytes(d.subrange(9, 17)),
                ),
            )
        } else {
            Err(OpError::Custom(ZionError::InvalidInstruction))
        }
    } else if d[0] == 3 {
        if d.len() >= 17 {
            Ok(
                InstructionView::Withdraw(
                    spec_u64_from_le_bytes(d.subrange(1, 9)),
                    spec_u64_from_le_bytes(d.subrange(9, 17)),
                ),
            )
        } else {
            Err(OpError::Custom(ZionError::InvalidInstruction))
        }
    } else if d[0] == 4 {
        if d.len() >= 9 {
            Ok(InstructionView::Swap(spec_u64_from_le_bytes(d.subrange(1, 9))))
        } else {
            Err(OpError::Custom(ZionError::InvalidInstruction))
        }
    } else {
        Err(OpError::Custom(ZionError::InvalidInstruction))
    }
}

impl ZionInstruction {
    /// Decodes an instruction from its byte form.
    pub fn unpack(input: &[u8]) -> (r: Result<ZionInstruction, OpError>)
        ensures
            match r {
                Ok(i) => spec_unpack_instruction(input@) == Ok::<InstructionView, OpError>(i@),
                Err(e) => spec_unpack_instruction(input@) == Err::<InstructionView, OpError>(e),
            },
    {
        if input.len() == 0 {
            return Ok(ZionInstruction::ClosePool());
        }
        let tag = *slice_index_get(input, 0);
        let rest = slice_subrange(input, 1, input.len());
        proof {
            assert(rest@ =~= input@.skip(1));
            if input@.len() >= 17 {
                assert(rest@.subrange(0, 8) =~= input@.subrange(1, 9));
                assert(rest@.subrange(8, 16) =~= input@.subrange(9, 17));
            }
            if input@.len() >= 9 {
                assert(rest@.subrange(0, 8) =~= input@.subrange(1, 9));
            }
        }
        if tag == 0 {
            match SwapState::unpack_from_slice(rest) {
                Ok(swap_state) => Ok(
                    ZionInstruction::Initialize(Initialize { swap_state }),
                ),
                Err(e) => Err(e),
            }
        } else if tag == 1 {
            if rest.len() < 16 {
                return Err(OpError::Custom(ZionError::InvalidInstruction));
            }
            Ok(
                ZionInstruction::AdminDeposit(
                    AdminDeposit {
                        token_a_deposit: u64_from_le_bytes(slice_subrange(rest, 0, 8)),
                        token_b_deposit: u64_from_le_bytes(slice_subrange(rest, 8, 16)),
                    },
                ),
            )
        } else if tag == 2 {
            if rest.len() < 16 {
                return Err(OpError::Custom(ZionError::InvalidInstruction));
            }
            Ok(
                ZionInstruction::Deposit(
                    Deposit {
                        token_a_deposit: u64_from_le_bytes(slice_subrange(rest, 0, 8)),
                        token_b_deposit: u64_from_le_bytes(slice_subrange(rest, 8, 16)),
                    },
                ),
            )
        } else if tag == 3 {
            if rest.len() < 16 {
                return Err(OpError::Custom(ZionError::InvalidInstruction));
            }
            Ok(
                ZionInstruction::Withdraw(
                    Withdraw {
                        token_a_withdraw: u64_from_le_bytes(slice_subrange(rest, 0, 8)),
                        token_b_withdraw: u64_from_le_bytes(slice_subrange(rest, 8, 16)),
                    },
                ),
            )
        } else if tag == 4 {
            if rest.len() < 8 {
                return Err(OpError::Custom(ZionError::InvalidInstruction));
            }
            Ok(
                ZionInstruction::Swap(
                    Swap { amount: u64_from_le_bytes(slice_subrange(rest, 0, 8)) },
                ),
            )
        } else {
            Err(OpError::Custom(ZionError::InvalidInstruction))
        }
    }

    /// Encodes an instruction into its byte form.
    pub fn pack(&self) -> (r: Vec<u8>)
        ensures
            r@ == spec_pack_instruction(self@),
    {
        let mut buf: Vec<u8> = Vec::new();
        match self {
            ZionInstruction::Initialize(Initialize { swap_state }) => {
                buf.push(0);
                let mut state_bytes: Vec<u8> = Vec::new();
                swap_state.pack_into_slice(&mut state_bytes);
                buf.append(&mut state_bytes);
            },
            ZionInstruction::AdminDeposit(AdminDeposit { token_a_deposit, token_b_deposit }) => {
                buf.push(1);
                let mut bytes = u64_to_le_bytes(*token_a_deposit);
                buf.append(&mut bytes);
                let mut bytes = u64_to_le_bytes(*token_b_deposit);
                buf.append(&mut bytes);
            },
            ZionInstruction::Deposit(Deposit { token_a_deposit, token_b_deposit }) => {
                buf.push(2);
                let mut bytes = u64_to_le_bytes(*token_a_deposit);
                buf.append(&mut bytes);
                let mut bytes = u64_to_le_bytes(*token_b_deposit);
                buf.append(&mut bytes);
            },
            ZionInstruction::Withdraw(Withdraw { token_a_withdraw, token_b_withdraw }) => {
                buf.push(3);
                let mut bytes = u64_to_le_bytes(*token_a_withdraw);
                buf.append(&mut bytes);
                let mut bytes = u64_to_le_bytes(*token_b_withdraw);
                buf.append(&mut bytes);
            },
            ZionInstruction::Swap(Swap { amount }) => {
                buf.push(4);
                let mut bytes = u64_to_le_bytes(*amount);
                buf.append(&mut bytes);
            },
            ZionInstruction::ClosePool() => {},
        }
        proof {
            assert(buf@ =~= spec_pack_instruction(self@));
        }
        buf
    }
}

/// Encoding an instruction and decoding it again reproduces it.
pub proof fn lemma_instruction_round_trip(i: InstructionView)
    requires
        (i matches InstructionView::Initialize(s) ==> s.wf()),
    ensures
        spec_unpack_instruction(spec_pack_instruction(i)) == Ok::<InstructionView, OpError>(i),
{
    let d = spec_pack_instruction(i);
    match i {
        InstructionView::Initialize(s) => {
            assert(d.skip(1) =~= spec_pack_state(s));
            crate::state::lemma_state_round_trip(s);
        },
        InstructionView::AdminDeposit(a, b) => {
            vstd::bytes::lemma_auto_spec_u64_to_from_le_bytes();
            assert(d.subrange(1, 9) =~= spec_u64_to_le_bytes(a));
            assert(d.subrange(9, 17) =~= spec_u64_to_le_bytes(b));
        },
        InstructionView::Deposit(a, b) => {
            vstd::bytes::lemma_auto_spec_u64_to_from_le_bytes();
            assert(d.subrange(1, 9) =~= spec_u64_to_le_bytes(a));
            assert(d.subrange(9, 17) =~= spec_u64_to_le_bytes(b));
        },
        InstructionView::Withdraw(a, b) => {
            vstd::bytes::lemma_auto_spec_u64_to_from_le_bytes();
            assert(d.subrange(1, 9) =~= spec_u64_to_le_bytes(a));
            assert(d.subrange(9, 17) =~= spec_u64_to_le_bytes(b));
        },
        InstructionView::Swap(a) => {
            vstd::bytes::lemma_auto_spec_u64_to_from_le_bytes();
            assert(d.subrange(1, 9) =~= spec_u64_to_le_bytes(a));
        },
        InstructionView::ClosePool => {},
    }
}

} // verus!
