//! The single-instance slot behind the entry points, and its lifecycle.
//!
//! The slot is empty or holds the one algorithm instance of the session. `Init`
//! fills it, `UnInit` empties it, and every other entry works on the instance
//! in it or, on an empty slot, reports that no session is open.
//!
//! Nothing is known here of what an algorithm's methods do, so the contracts
//! of the entries speak of them through `call_ensures`: an entry's status is
//! that of a result which the method may return on the arguments it was
//! handed, and the slot then holds the instance as that call left it. For an
//! algorithm whose methods have contracts of their own, the entries' contracts
//! are as exact as those.

use vstd::prelude::*;
use crate::algorithm::FlashAlgorithm;
use crate::error_code::{status_code, status_of, ErrorCode, STATUS_NOT_INITIALIZED, STATUS_OK};
use crate::function::{function_of, is_function_code, Function};

verus! {

/// Whether the outcome of a constructor is one that can occur: a failure
/// carries a code that is not zero.
pub open spec fn possible<T>(outcome: Result<T, ErrorCode>) -> bool {
    outcome matches Err(e) ==> e.wf()
}

/// What the slot holds once the outcome of a constructor is installed: the
/// instance where there is one, nothing after a failure.
pub open spec fn installed<T>(outcome: Result<T, ErrorCode>) -> Option<T> {
    match outcome {
        Ok(instance) => Some(instance),
        Err(_) => None,
    }
}

/// The status that `Init` reports for the outcome of a constructor.
pub open spec fn init_status<T>(outcome: Result<T, ErrorCode>) -> u32 {
    match outcome {
        Ok(_) => STATUS_OK,
        Err(e) => e.value(),
    }
}

/// The status that `UnInit` reports on a slot that holds `held`.
pub open spec fn uninit_status<T>(held: Option<T>) -> u32 {
    if held is Some {
        STATUS_OK
    } else {
        STATUS_NOT_INITIALIZED
    }
}

/// The constructor, called with these arguments, may return `outcome`.
pub open spec fn constructs<T: FlashAlgorithm>(
    address: u32,
    clock: u32,
    function: Function,
    outcome: Result<T, ErrorCode>,
) -> bool {
    call_ensures(T::new, (address, clock, function), outcome)
}

/// The place of the one algorithm instance that a session works on.
///
/// It is empty until `Init` succeeds and again after `UnInit`. The instance is
/// dropped when it leaves the slot.
pub struct InstanceSlot<T: FlashAlgorithm> {
    instance: Option<T>,
}

impl<T: FlashAlgorithm> View for InstanceSlot<T> {
    type V = Option<T>;

    /// The instance that the slot holds, if any.
    closed spec fn view(&self) -> Option<T> {
        self.instance
    }
}

impl<T: FlashAlgorithm> InstanceSlot<T> {
    /// Whether a session is open.
    pub open spec fn spec_is_initialized(&self) -> bool {
        self@ is Some
    }

    /// An empty slot.
    pub fn new() -> (slot: Self)
        ensures
            slot@ is None,
    {
        InstanceSlot { instance: None }
    }

    /// Whether a session is open.
    #[verifier::when_used_as_spec(spec_is_initialized)]
    pub fn is_initialized(&self) -> (open: bool)
        ensures
            open == self.spec_is_initialized(),
    {
        self.instance.is_some()
    }

    /// Puts the outcome of a constructor into the slot and reports its status.
    ///
    /// An instance takes the slot and the status is zero; a failure leaves the
    /// slot empty and its code, which is not zero, is the status. What the
    /// slot held before is dropped either way.
    pub fn install(&mut self, outcome: Result<T, ErrorCode>) -> (status: u32)
        ensures
            possible(outcome),
            final(self)@ == installed(outcome),
            status == init_status(outcome),
            status == STATUS_OK <==> outcome is Ok,
    {
        match outcome {
            Ok(instance) => {
                self.instance = Some(instance);
                STATUS_OK
            },
            Err(e) => {
                self.instance = None;
                e.get()
            },
        }
    }

    /// Opens a session: `Init`.
    ///
    /// A session that is still open is closed first, so that its instance is
    /// dropped before the next one is constructed. Then the constructor runs
    /// with the address, the clock and the function that the selector stands
    /// for, and its outcome is installed: an instance takes the slot and the
    /// status is zero, a failure leaves the slot empty and its code is the
    /// status.
    ///
    /// The selector must be 1, 2 or 3.
    pub fn init(&mut self, address: u32, clock: u32, function: u32) -> (status: u32)
        requires
            is_function_code(function),
        ensures
            status == STATUS_OK <==> final(self)@ is Some,
            exists|outcome: Result<T, ErrorCode>|
                {
                    &&& #[trigger] constructs(
                        address,
                        clock,
                        function_of(function).unwrap(),
                        outcome,
                    )
                    &&& possible(outcome)
                    &&& final(self)@ == installed(outcome)
                    &&& status == init_status(outcome)
                },
    {
        if self.is_initialized() {
            self.uninit();
        }
        let function = Function::from_code(function).unwrap();
        let outcome = T::new(address, clock, function);
        proof {
            assert(constructs(address, clock, function, outcome));
        }
        self.install(outcome)
    }

    /// Closes the session: `UnInit`.
    ///
    /// On an empty slot the status is 1. Otherwise the instance is dropped, the
    /// slot is empty and the status is zero.
    pub fn uninit(&mut self) -> (status: u32)
        ensures
            final(self)@ is None,
            status == uninit_status(old(self)@),
    {
        if self.instance.is_none() {
            return STATUS_NOT_INITIALIZED;
        }
        self.instance = None;
        STATUS_OK
    }

    /// Erases the sector at `address`: `EraseSector`.
    ///
    /// On an empty slot the status is 1 and nothing is called. Otherwise the
    /// instance erases the sector, and the status is zero if it succeeds and
    /// its failure's code if it does not. The session stays open either way.
    pub fn erase_sector(&mut self, address: u32) -> (status: u32)
        ensures
            match old(self)@ {
                None => final(self)@ is None && status == STATUS_NOT_INITIALIZED,
                Some(before) => exists|instance: &mut T, result: Result<(), ErrorCode>|
                    {
                        &&& #[trigger] call_ensures(T::erase_sector, (instance, address), result)
                        &&& mut_ref_current(instance) == before
                        &&& final(self)@ == Some(mut_ref_future(instance))
                        &&& status == status_of(result)
                        &&& status == STATUS_OK <==> result is Ok
                    },
            },
    {
        match &mut self.instance {
            Some(instance) => {
                let result = instance.erase_sector(address);
                status_code(result)
            },
            None => STATUS_NOT_INITIALIZED,
        }
    }

    /// Programs `data` at `address`: `ProgramPage`.
    ///
    /// On an empty slot the status is 1 and nothing is called. Otherwise the
    /// instance programs the page, and the status is zero if it succeeds and
    /// its failure's code if it does not. The session stays open either way.
    pub fn program_page(&mut self, address: u32, data: &[u8]) -> (status: u32)
        ensures
            match old(self)@ {
                None => final(self)@ is None && status == STATUS_NOT_INITIALIZED,
                Some(before) => exists|instance: &mut T, result: Result<(), ErrorCode>|
                    {
                        &&& #[trigger] call_ensures(T::program_page, (instance, address, data), result)
                        &&& mut_ref_current(instance) == before
                        &&& final(self)@ == Some(mut_ref_future(instance))
                        &&& status == status_of(result)
                        &&& status == STATUS_OK <==> result is Ok
                    },
            },
    {
        match &mut self.instance {
            Some(instance) => {
                let result = instance.program_page(address, data);
                status_code(result)
            },
            None => STATUS_NOT_INITIALIZED,
        }
    }

    /// Erases the whole chip: `EraseChip`.
    ///
    /// On an empty slot the status is 1 and nothing is called. Otherwise the
    /// instance erases the chip, and the status is zero if it succeeds and its
    /// failure's code if it does not. The session stays open either way.
    pub fn erase_chip(&mut self) -> (status: u32)
        ensures
            match old(self)@ {
                None => final(self)@ is None && status == STATUS_NOT_INITIALIZED,
                Some(before) => exists|instance: &mut T, result: Result<(), ErrorCode>|
                    {
                        &&& #[trigger] call_ensures(T::erase_all, (instance,), result)
                        &&& mut_ref_current(instance) == before
                        &&& final(self)@ == Some(mut_ref_future(instance))
                        &&& status == status_of(result)
                        &&& status == STATUS_OK <==> result is Ok
                    },
            },
    {
        match &mut self.instance {
            Some(instance) => {
                let result = instance.erase_all();
                status_code(result)
            },
            None => STATUS_NOT_INITIALIZED,
        }
    }

    /// Verifies `size` bytes at `address`: `Verify`.
    ///
    /// `data` is the buffer to compare with, or `None` where the host gave
    /// none. On an empty slot the status is 1 and nothing is called. Otherwise
    /// the instance verifies, and the status is zero if it succeeds and its
    /// failure's code if it does not. The session stays open either way.
    pub fn verify(&mut self, address: u32, size: u32, data: Option<&[u8]>) -> (status: u32)
        ensures
            match old(self)@ {
                None => final(self)@ is None && status == STATUS_NOT_INITIALIZED,
                Some(before) => exists|instance: &mut T, result: Result<(), ErrorCode>|
                    {
                        &&& #[trigger] call_ensures(T::verify, (instance, address, size, data), result)
                        &&& mut_ref_current(instance) == before
                        &&& final(self)@ == Some(mut_ref_future(instance))
                        &&& status == status_of(result)
                        &&& status == STATUS_OK <==> result is Ok
                    },
            },
    {
        match &mut self.instance {
            Some(instance) => {
                let result = instance.verify(address, size, data);
                status_code(result)
            },
            None => STATUS_NOT_INITIALIZED,
        }
    }
}

/// `Init` reports success exactly if the constructor succeeded, and then, and
/// only then, the slot holds an instance.
pub proof fn law_init_succeeds_with_constructor<T>(outcome: Result<T, ErrorCode>)
    requires
        possible(outcome),
    ensures
        init_status(outcome) == STATUS_OK <==> outcome is Ok,
        init_status(outcome) == STATUS_OK <==> installed(outcome) is Some,
{
}

/// After an `Init` that succeeded, `UnInit` reports success and empties the
/// slot; the next `UnInit` reports that no session is open.
pub proof fn law_init_uninit_round_trip<T>(outcome: Result<T, ErrorCode>)
    requires
        possible(outcome),
        init_status(outcome) == STATUS_OK,
    ensures
        uninit_status(installed(outcome)) == STATUS_OK,
        uninit_status(None::<T>) == STATUS_NOT_INITIALIZED,
{
}

/// Two calls of `Init` in a row both report success exactly if both
/// constructors succeed, and the slot then holds the second instance.
pub proof fn law_reinit<T>(first: Result<T, ErrorCode>, second: Result<T, ErrorCode>)
    requires
        possible(first),
        possible(second),
    ensures
        (init_status(first) == STATUS_OK && init_status(second) == STATUS_OK) <==> (first is Ok
            && second is Ok),
        second matches Ok(instance) ==> installed(second) == Some(instance),
{
}

/// A failure of the constructor reaches the host as it is: `Init` reports the
/// failure's code, which is not zero, and leaves the slot empty, so that
/// `UnInit` and the other entries then report that no session is open.
pub proof fn law_error_passthrough<T>(e: ErrorCode)
    requires
        e.wf(),
    ensures
        init_status(Err::<T, ErrorCode>(e)) == e.value(),
        init_status(Err::<T, ErrorCode>(e)) != STATUS_OK,
        installed(Err::<T, ErrorCode>(e)) is None,
        uninit_status(installed(Err::<T, ErrorCode>(e))) == STATUS_NOT_INITIALIZED,
{
}

} // verus!
