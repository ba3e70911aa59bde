use vstd::prelude::*;
use vstd::slice::slice_subrange;
use crate::error::ProgramError;

verus! {

/// The handlers of the pool program. A single leading byte of the
/// instruction selects one of them; what follows that byte is the
/// handler's payload.
#[derive(Clone, Copy, Debug, PartialEq, Eq, Structural)]
pub enum Handler {
    Initialize,
    Deposit,
    Withdraw,
    Swap,
}

impl Handler {
    /// The tag byte of a handler.
    pub open spec fn tag(self) -> u8 {
        match self {
            Handler::Initialize => 0,
            Handler::Deposit => 1,
            Handler::Withdraw => 2,
            Handler::Swap => 3,
        }
    }
}

/// The handler an instruction selects: the one whose tag is the first
/// byte. An empty instruction and an unknown tag are
/// `InvalidInstructionData`.
pub open spec fn selected(instruction_data: Seq<u8>) -> Result<Handler, ProgramError> {
    if instruction_data.len() == 0 {
        Err(ProgramError::InvalidInstructionData)
    } else if instruction_data[0] == 0 {
        Ok(Handler::Initialize)
    } else if instruction_data[0] == 1 {
        Ok(Handler::Deposit)
    } else if instruction_data[0] == 2 {
        Ok(Handler::Withdraw)
    } else if instruction_data[0] == 3 {
        Ok(Handler::Swap)
    } else {
        Err(ProgramError::InvalidInstructionData)
    }
}

/// Splits an instruction into its handler and the handler's payload.
pub fn select<'a>(instruction_data: &'a [u8]) -> (selection: Result<
    (Handler, &'a [u8]),
    ProgramError,
>)
    ensures
        match selection {
            Ok((handler, payload)) => selected(instruction_data@) == Ok::<Handler, ProgramError>(
                handler,
            ) && payload@ == instruction_data@.subrange(1, instruction_data@.len() as int),
            Err(e) => selected(instruction_data@) == Err::<Handler, ProgramError>(e),
        },
{
    let len: usize = instruction_data.len();
    if len == 0 {
        return Err(ProgramError::InvalidInstructionData);
    }
    let tag: u8 = instruction_data[0];
    let handler = if tag == 0 {
        Handler::Initialize
    } else if tag == 1 {
        Handler::Deposit
    } else if tag == 2 {
        Handler::Withdraw
    } else if tag == 3 {
        Handler::Swap
    } else {
        return Err(ProgramError::InvalidInstructionData);
    };
    Ok((handler, slice_subrange(instruction_data, 1, len)))
}

/// Every handler is selected by its own tag and by no other byte.
pub proof fn lemma_tags_select_their_handler(instruction_data: Seq<u8>, handler: Handler)
    requires
        instruction_data.len() > 0,
    ensures
        selected(instruction_data) == Ok::<Handler, ProgramError>(handler) <==> instruction_data[0]
            == handler.tag(),
{
}

} // verus!
