//! The inner instructions of a transaction, and their encoding for the
//! cache.
//!
//! The records here hold the same fields as the host's, as plain values.
//! Nothing in this crate interprets them: they travel from a notification
//! to the cache, where they are kept as JSON text.

use vstd::prelude::*;

verus! {

/// One instruction in the compact form in which a message carries it.
#[derive(Clone, Debug, PartialEq, Eq)]
pub struct CompiledInstruction {
    /// Index of the program's account among the transaction's keys.
    pub program_id_index: u8,
    /// Indices of the accounts handed to the program, in order.
    pub accounts: Vec<u8>,
    /// The program's input.
    pub data: Vec<u8>,
}

/// An instruction that ran inside another one.
#[derive(Clone, Debug, PartialEq, Eq)]
pub struct InnerInstruction {
    pub instruction: CompiledInstruction,
    /// Depth of the invocation stack at which it ran, where known.
    pub stack_height: Option<u32>,
}

/// The inner instructions that one instruction of a transaction gave rise
/// to.
#[derive(Clone, Debug, PartialEq, Eq)]
pub struct InnerInstructions {
    /// Index of the instruction in the transaction.
    pub index: u8,
    pub instructions: Vec<InnerInstruction>,
}

/// A [`CompiledInstruction`] as plain values.
pub struct CompiledInstructionView {
    pub program_id_index: u8,
    pub accounts: Seq<u8>,
    pub data: Seq<u8>,
}

/// An [`InnerInstruction`] as plain values.
pub struct InnerInstructionView {
    pub instruction: CompiledInstructionView,
    pub stack_height: Option<u32>,
}

/// An [`InnerInstructions`] as plain values.
pub struct InnerInstructionsView {
    pub index: u8,
    pub instructions: Seq<InnerInstructionView>,
}

impl View for CompiledInstruction {
    type V = CompiledInstructionView;

    open spec fn view(&self) -> CompiledInstructionView {
        CompiledInstructionView {
            program_id_index: self.program_id_index,
            accounts: self.accounts@,
            data: self.data@,
        }
    }
}

impl View for InnerInstruction {
    type V = InnerInstructionView;

    open spec fn view(&self) -> InnerInstructionView {
        InnerInstructionView { instruction: self.instruction@, stack_height: self.stack_height }
    }
}

impl View for InnerInstructions {
    type V = InnerInstructionsView;

    open spec fn view(&self) -> InnerInstructionsView {
        InnerInstructionsView {
            index: self.index,
            instructions: self.instructions@.map_values(|i: InnerInstruction| i@),
        }
    }
}

/// What a transaction left behind: no record at all, or a list of groups,
/// which may be empty.
pub type Payload = Option<Seq<InnerInstructionsView>>;

/// The payload that an optional list of groups stands for.
pub open spec fn payload_view(object: Option<Vec<InnerInstructions>>) -> Payload {
    match object {
        Some(groups) => Some(groups@.map_values(|g: InnerInstructions| g@)),
        None => None,
    }
}

/// The JSON text that the encoder gives for a payload, or `None` where it
/// refuses the payload.
pub uninterp spec fn json_text(payload: Option<Seq<InnerInstructionsView>>) -> Option<Seq<char>>;

/// `serde_json::Error`, the encoder's refusal. It is carried from the
/// encoder to the place where its message is read; of what it holds
/// nothing is known here.
#[verifier::external_type_specification]
#[verifier::external_body]
pub struct ExJsonError(serde_json::Error);

/// Encodes a payload with `serde_json::to_string`, applied to the same
/// value written in the records of `solana_transaction_status`, whose
/// `Serialize` impls lay out the text. The contract claims that text and
/// refusal alike depend on the payload alone; nothing here was proved of
/// the encoding.
#[verifier::external_body]
pub(crate) fn encode_payload(object: &Option<Vec<InnerInstructions>>) -> (encoded: Result<
    String,
    serde_json::Error,
>)
    ensures
        match encoded {
            Ok(text) => json_text(payload_view(*object)) == Some(text@),
            Err(_) => json_text(payload_view(*object)) is None,
        },
{
    let groups = object.as_ref().map(|groups| {
        groups.iter().map(|g| solana_transaction_status::InnerInstructions {
            index: g.index,
            instructions: g.instructions.iter().map(|i| solana_transaction_status::InnerInstruction {
                instruction: solana_sdk::instruction::CompiledInstruction {
                    program_id_index: i.instruction.program_id_index,
                    accounts: i.instruction.accounts.clone(),
                    data: i.instruction.data.clone(),
                },
                stack_height: i.stack_height,
            }).collect(),
        }).collect::<Vec<_>>()
    });
    serde_json::to_string(&groups)
}

/// The message of an encoder's refusal, from `serde_json::Error`'s
/// `Display`. Nothing is claimed of the text.
#[verifier::external_body]
pub(crate) fn refusal_text(error: &serde_json::Error) -> (text: String) {
    error.to_string()
}

} // verus!
