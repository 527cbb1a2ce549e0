use vstd::prelude::*;

verus! {

/// Every way an instruction of the program can be rejected.
#[derive(Clone, Copy, Debug, PartialEq, Eq, Structural)]
pub enum WavexError {
    InvalidDiscount,
    EmptyName,
    EmptySymbol,
    EmptyUri,
    InvalidCapacity,
    TemplateNotFound,
    TemplateInactive,
    EventNotFound,
    EventFull,
    InsufficientBalance,
    NotAuthorized,
    /// The program state was already created.
    AlreadyInitialized,
    /// A string does not fit in the capacity its record reserves for it.
    AllocationError,
    /// No program address exists for the given seeds.
    DerivationError,
    /// A record counter is at its largest value.
    CounterOverflow,
}

/// The message shown to a caller for an error.
pub open spec fn error_message(e: WavexError) -> Seq<char> {
    match e {
        WavexError::InvalidDiscount => "Invalid discount percentage"@,
        WavexError::EmptyName => "Name cannot be empty"@,
        WavexError::EmptySymbol => "Symbol cannot be empty"@,
        WavexError::EmptyUri => "URI cannot be empty"@,
        WavexError::InvalidCapacity => "Invalid capacity"@,
        WavexError::TemplateNotFound => "Template not found"@,
        WavexError::TemplateInactive => "Template is inactive"@,
        WavexError::EventNotFound => "Event not found"@,
        WavexError::EventFull => "Event is full"@,
        WavexError::InsufficientBalance => "Insufficient balance"@,
        WavexError::NotAuthorized => "Not authorized"@,
        WavexError::AlreadyInitialized => "Program state already initialized"@,
        WavexError::AllocationError => "Value does not fit in the reserved record space"@,
        WavexError::DerivationError => "No program address exists for these seeds"@,
        WavexError::CounterOverflow => "Record counter overflow"@,
    }
}

impl WavexError {
    /// The message shown to a caller for this error.
    pub fn message(&self) -> (r: &'static str)
        ensures
            r@ == error_message(*self),
    {
        match self {
            WavexError::InvalidDiscount => "Invalid discount percentage",
            WavexError::EmptyName => "Name cannot be empty",
            WavexError::EmptySymbol => "Symbol cannot be empty",
            WavexError::EmptyUri => "URI cannot be empty",
            WavexError::InvalidCapacity => "Invalid capacity",
            WavexError::TemplateNotFound => "Template not found",
            WavexError::TemplateInactive => "Template is inactive",
            WavexError::EventNotFound => "Event not found",
            WavexError::EventFull => "Event is full",
            WavexError::InsufficientBalance => "Insufficient balance",
            WavexError::NotAuthorized => "Not authorized",
            WavexError::AlreadyInitialized => "Program state already initialized",
            WavexError::AllocationError => "Value does not fit in the reserved record space",
            WavexError::DerivationError => "No program address exists for these seeds",
            WavexError::CounterOverflow => "Record counter overflow",
        }
    }
}

} // verus!
