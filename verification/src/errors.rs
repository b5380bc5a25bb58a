//! Error taxonomies of the bridge.
//!
//! Each subsystem has a closed set of faults. The numeric code of a fault is
//! its ordinal within its own taxonomy, so codes of different taxonomies may
//! coincide. Every subsystem fault converts into a [`DeviceError`].

use vstd::prelude::*;

verus! {

/// Faults of the ring buffer.
#[derive(Debug, Clone, Copy, PartialEq, Eq, Structural)]
pub enum RingBufferError {
    /// Ring buffer overflow occurred.
    BufferOverflow,
    /// Insufficient space in ring buffer.
    InsufficientSpace,
    /// Ring buffer is empty.
    BufferEmpty,
}

impl RingBufferError {
    /// The ordinal of the variant within this taxonomy.
    pub open spec fn spec_code(self) -> u16 {
        match self {
            RingBufferError::BufferOverflow => 0,
            RingBufferError::InsufficientSpace => 1,
            RingBufferError::BufferEmpty => 2,
        }
    }

    /// The message of the variant.
    pub open spec fn spec_description(self) -> Seq<char> {
        match self {
            RingBufferError::BufferOverflow => "Ring buffer overflow occurred"@,
            RingBufferError::InsufficientSpace => "Insufficient space in ring buffer"@,
            RingBufferError::BufferEmpty => "Ring buffer is empty"@,
        }
    }

    /// Returns the static message of this fault.
    pub fn description(&self) -> (message: &'static str)
        ensures
            message@ == self.spec_description(),
    {
        match self {
            RingBufferError::BufferOverflow => "Ring buffer overflow occurred",
            RingBufferError::InsufficientSpace => "Insufficient space in ring buffer",
            RingBufferError::BufferEmpty => "Ring buffer is empty",
        }
    }

    /// Returns the numeric code of this fault: its ordinal in the taxonomy.
    pub fn code(&self) -> (code: u16)
        ensures
            code == self.spec_code(),
    {
        match self {
            RingBufferError::BufferOverflow => 0,
            RingBufferError::InsufficientSpace => 1,
            RingBufferError::BufferEmpty => 2,
        }
    }
}

/// Faults of an LED output.
#[derive(Debug, Clone, Copy, PartialEq, Eq, Structural)]
pub enum LedError {
    /// Failed to set LED state.
    SetStateError,
    /// Failed to read LED state.
    ReadStateError,
}

impl LedError {
    /// The ordinal of the variant within this taxonomy.
    pub open spec fn spec_code(self) -> u16 {
        match self {
            LedError::SetStateError => 0,
            LedError::ReadStateError => 1,
        }
    }

    /// The message of the variant.
    pub open spec fn spec_description(self) -> Seq<char> {
        match self {
            LedError::SetStateError => "Failed to set LED state"@,
            LedError::ReadStateError => "Failed to read LED state"@,
        }
    }

    /// Returns the static message of this fault.
    pub fn description(&self) -> (message: &'static str)
        ensures
            message@ == self.spec_description(),
    {
        match self {
            LedError::SetStateError => "Failed to set LED state",
            LedError::ReadStateError => "Failed to read LED state",
        }
    }

    /// Returns the numeric code of this fault: its ordinal in the taxonomy.
    pub fn code(&self) -> (code: u16)
        ensures
            code == self.spec_code(),
    {
        match self {
            LedError::SetStateError => 0,
            LedError::ReadStateError => 1,
        }
    }
}

/// Faults of the UART controller.
#[derive(Debug, Clone, Copy, PartialEq, Eq, Structural)]
pub enum UsartError {
    /// DMA error occurred in USART.
    DmaError,
    /// Transfer error in USART.
    TransferError,
    /// USART operation timed out.
    Timeout,
    /// USART not initialized.
    NotInitialized,
    /// USART buffer overflow.
    BufferOverflow,
    /// USART flag not set.
    FlagNotSet,
}

impl UsartError {
    /// The ordinal of the variant within this taxonomy.
    pub open spec fn spec_code(self) -> u16 {
        match self {
            UsartError::DmaError => 0,
            UsartError::TransferError => 1,
            UsartError::Timeout => 2,
            UsartError::NotInitialized => 3,
            UsartError::BufferOverflow => 4,
            UsartError::FlagNotSet => 5,
        }
    }

    /// The message of the variant.
    pub open spec fn spec_description(self) -> Seq<char> {
        match self {
            UsartError::DmaError => "DMA error occurred in USART"@,
            UsartError::TransferError => "Transfer error in USART"@,
            UsartError::Timeout => "USART operation timed out"@,
            UsartError::NotInitialized => "USART not initialized"@,
            UsartError::BufferOverflow => "USART buffer overflow"@,
            UsartError::FlagNotSet => "USART flag not set"@,
        }
    }

    /// Returns the static message of this fault.
    pub fn description(&self) -> (message: &'static str)
        ensures
            message@ == self.spec_description(),
    {
        match self {
            UsartError::DmaError => "DMA error occurred in USART",
            UsartError::TransferError => "Transfer error in USART",
            UsartError::Timeout => "USART operation timed out",
            UsartError::NotInitialized => "USART not initialized",
            UsartError::BufferOverflow => "USART buffer overflow",
            UsartError::FlagNotSet => "USART flag not set",
        }
    }

    /// Returns the numeric code of this fault: its ordinal in the taxonomy.
    pub fn code(&self) -> (code: u16)
        ensures
            code == self.spec_code(),
    {
        match self {
            UsartError::DmaError => 0,
            UsartError::TransferError => 1,
            UsartError::Timeout => 2,
            UsartError::NotInitialized => 3,
            UsartError::BufferOverflow => 4,
            UsartError::FlagNotSet => 5,
        }
    }
}

/// Faults of the USB host bridge.
#[derive(Debug, Clone, Copy, PartialEq, Eq, Structural)]
pub enum UsbError {
    /// USB device is not initialized.
    NotInitialized,
    /// Failed to read from USB.
    ReadError,
    /// Failed to write to USB.
    WriteError,
    /// USB buffer overflow.
    BufferOverflow,
    /// Failed to initialize USB.
    InitError,
    /// Failed to poll USB.
    PollError,
}

impl UsbError {
    /// The ordinal of the variant within this taxonomy.
    pub open spec fn spec_code(self) -> u16 {
        match self {
            UsbError::NotInitialized => 0,
            UsbError::ReadError => 1,
            UsbError::WriteError => 2,
            UsbError::BufferOverflow => 3,
            UsbError::InitError => 4,
            UsbError::PollError => 5,
        }
    }

    /// The message of the variant.
    pub open spec fn spec_description(self) -> Seq<char> {
        match self {
            UsbError::NotInitialized => "USB device is not initialized"@,
            UsbError::ReadError => "Failed to read from USB"@,
            UsbError::WriteError => "Failed to write to USB"@,
            UsbError::BufferOverflow => "USB buffer overflow"@,
            UsbError::InitError => "Failed to initialize USB"@,
            UsbError::PollError => "Failed to poll USB"@,
        }
    }

    /// Returns the static message of this fault.
    pub fn description(&self) -> (message: &'static str)
        ensures
            message@ == self.spec_description(),
    {
        match self {
            UsbError::NotInitialized => "USB device is not initialized",
            UsbError::ReadError => "Failed to read from USB",
            UsbError::WriteError => "Failed to write to USB",
            UsbError::BufferOverflow => "USB buffer overflow",
            UsbError::InitError => "Failed to initialize USB",
            UsbError::PollError => "Failed to poll USB",
        }
    }

    /// Returns the numeric code of this fault: its ordinal in the taxonomy.
    pub fn code(&self) -> (code: u16)
        ensures
            code == self.spec_code(),
    {
        match self {
            UsbError::NotInitialized => 0,
            UsbError::ReadError => 1,
            UsbError::WriteError => 2,
            UsbError::BufferOverflow => 3,
            UsbError::InitError => 4,
            UsbError::PollError => 5,
        }
    }
}

/// Faults of the DMA link.
#[derive(Debug, Clone, Copy, PartialEq, Eq, Structural)]
pub enum DmaError {
    /// Failed to initialize DMA.
    InitError,
    /// DMA transfer error.
    TransferError,
    /// DMA retry limit exceeded.
    RetryLimitExceeded,
    /// DMA buffer overflow.
    BufferOverflow,
    /// DMA buffer underflow.
    BufferUnderflow,
    /// Failed to write using DMA.
    WriteError,
    /// Failed to read using DMA.
    ReadError,
}

impl DmaError {
    /// The ordinal of the variant within this taxonomy.
    pub open spec fn spec_code(self) -> u16 {
        match self {
            DmaError::InitError => 0,
            DmaError::TransferError => 1,
            DmaError::RetryLimitExceeded => 2,
            DmaError::BufferOverflow => 3,
            DmaError::BufferUnderflow => 4,
            DmaError::WriteError => 5,
            DmaError::ReadError => 6,
        }
    }

    /// The message of the variant.
    pub open spec fn spec_description(self) -> Seq<char> {
        match self {
            DmaError::InitError => "Failed to initialize DMA"@,
            DmaError::TransferError => "DMA transfer error"@,
            DmaError::RetryLimitExceeded => "DMA retry limit exceeded"@,
            DmaError::BufferOverflow => "DMA buffer overflow"@,
            DmaError::BufferUnderflow => "DMA buffer underflow"@,
            DmaError::WriteError => "Failed to write using DMA"@,
            DmaError::ReadError => "Failed to read using DMA"@,
        }
    }

    /// Returns the static message of this fault.
    pub fn description(&self) -> (message: &'static str)
        ensures
            message@ == self.spec_description(),
    {
        match self {
            DmaError::InitError => "Failed to initialize DMA",
            DmaError::TransferError => "DMA transfer error",
            DmaError::RetryLimitExceeded => "DMA retry limit exceeded",
            DmaError::BufferOverflow => "DMA buffer overflow",
            DmaError::BufferUnderflow => "DMA buffer underflow",
            DmaError::WriteError => "Failed to write using DMA",
            DmaError::ReadError => "Failed to read using DMA",
        }
    }

    /// Returns the numeric code of this fault: its ordinal in the taxonomy.
    pub fn code(&self) -> (code: u16)
        ensures
            code == self.spec_code(),
    {
        match self {
            DmaError::InitError => 0,
            DmaError::TransferError => 1,
            DmaError::RetryLimitExceeded => 2,
            DmaError::BufferOverflow => 3,
            DmaError::BufferUnderflow => 4,
            DmaError::WriteError => 5,
            DmaError::ReadError => 6,
        }
    }
}

/// The central taxonomy into which every subsystem's faults collapse.
#[derive(Debug, Clone, Copy, PartialEq, Eq, Structural)]
pub enum DeviceError {
    /// USB device error occurred.
    UsbError,
    /// DMA error occurred.
    DmaError,
    /// Device buffer overflow.
    BufferOverflow,
    /// Operation timed out.
    Timeout,
    /// LED error occurred.
    LedError,
}

impl DeviceError {
    /// The ordinal of the variant within this taxonomy.
    pub open spec fn spec_code(self) -> u16 {
        match self {
            DeviceError::UsbError => 0,
            DeviceError::DmaError => 1,
            DeviceError::BufferOverflow => 2,
            DeviceError::Timeout => 3,
            DeviceError::LedError => 4,
        }
    }

    /// The message of the variant.
    pub open spec fn spec_description(self) -> Seq<char> {
        match self {
            DeviceError::UsbError => "USB device error occurred"@,
            DeviceError::DmaError => "DMA error occurred"@,
            DeviceError::BufferOverflow => "Device buffer overflow"@,
            DeviceError::Timeout => "Operation timed out"@,
            DeviceError::LedError => "LED error occurred"@,
        }
    }

    /// Returns the static message of this fault.
    pub fn description(&self) -> (message: &'static str)
        ensures
            message@ == self.spec_description(),
    {
        match self {
            DeviceError::UsbError => "USB device error occurred",
            DeviceError::DmaError => "DMA error occurred",
            DeviceError::BufferOverflow => "Device buffer overflow",
            DeviceError::Timeout => "Operation timed out",
            DeviceError::LedError => "LED error occurred",
        }
    }

    /// Returns the numeric code of this fault: its ordinal in the taxonomy.
    pub fn code(&self) -> (code: u16)
        ensures
            code == self.spec_code(),
    {
        match self {
            DeviceError::UsbError => 0,
            DeviceError::DmaError => 1,
            DeviceError::BufferOverflow => 2,
            DeviceError::Timeout => 3,
            DeviceError::LedError => 4,
        }
    }
}

/// Faults of peripheral initialization.
#[derive(Debug, Clone, Copy, PartialEq, Eq, Structural)]
pub enum InitError {
    /// USART initialization error.
    UsartError,
    /// USB initialization error.
    UsbError,
    /// RCC initialization error.
    RccError,
    /// LUT initialization error.
    LutError,
}

impl InitError {
    /// The ordinal of the variant within this taxonomy.
    pub open spec fn spec_code(self) -> u16 {
        match self {
            InitError::UsartError => 0,
            InitError::UsbError => 1,
            InitError::RccError => 2,
            InitError::LutError => 3,
        }
    }

    /// The message of the variant.
    pub open spec fn spec_description(self) -> Seq<char> {
        match self {
            InitError::UsartError => "USART initialization error"@,
            InitError::UsbError => "USB initialization error"@,
            InitError::RccError => "RCC initialization error"@,
            InitError::LutError => "LUT initialization error"@,
        }
    }

    /// Returns the static message of this fault.
    pub fn description(&self) -> (message: &'static str)
        ensures
            message@ == self.spec_description(),
    {
        match self {
            InitError::UsartError => "USART initialization error",
            InitError::UsbError => "USB initialization error",
            InitError::RccError => "RCC initialization error",
            InitError::LutError => "LUT initialization error",
        }
    }

    /// Returns the numeric code of this fault: its ordinal in the taxonomy.
    pub fn code(&self) -> (code: u16)
        ensures
            code == self.spec_code(),
    {
        match self {
            InitError::UsartError => 0,
            InitError::UsbError => 1,
            InitError::RccError => 2,
            InitError::LutError => 3,
        }
    }
}

/// USB faults are USB device faults.
impl From<UsbError> for DeviceError {
    fn from(_error: UsbError) -> (device: Self) {
        DeviceError::UsbError
    }
}

impl vstd::std_specs::convert::FromSpecImpl<UsbError> for DeviceError {
    open spec fn obeys_from_spec() -> bool {
        true
    }

    open spec fn from_spec(_error: UsbError) -> Self {
        DeviceError::UsbError
    }
}

/// DMA faults are DMA device faults.
impl From<DmaError> for DeviceError {
    fn from(_error: DmaError) -> (device: Self) {
        DeviceError::DmaError
    }
}

impl vstd::std_specs::convert::FromSpecImpl<DmaError> for DeviceError {
    open spec fn obeys_from_spec() -> bool {
        true
    }

    open spec fn from_spec(_error: DmaError) -> Self {
        DeviceError::DmaError
    }
}

/// UART faults are handled as DMA-layer faults.
impl From<UsartError> for DeviceError {
    fn from(_error: UsartError) -> (device: Self) {
        DeviceError::DmaError
    }
}

impl vstd::std_specs::convert::FromSpecImpl<UsartError> for DeviceError {
    open spec fn obeys_from_spec() -> bool {
        true
    }

    open spec fn from_spec(_error: UsartError) -> Self {
        DeviceError::DmaError
    }
}

/// LED faults are LED device faults.
impl From<LedError> for DeviceError {
    fn from(_error: LedError) -> (device: Self) {
        DeviceError::LedError
    }
}

impl vstd::std_specs::convert::FromSpecImpl<LedError> for DeviceError {
    open spec fn obeys_from_spec() -> bool {
        true
    }

    open spec fn from_spec(_error: LedError) -> Self {
        DeviceError::LedError
    }
}

/// Every ring buffer fault is reported as a buffer overflow.
impl From<RingBufferError> for DeviceError {
    fn from(_error: RingBufferError) -> (device: Self) {
        DeviceError::BufferOverflow
    }
}

impl vstd::std_specs::convert::FromSpecImpl<RingBufferError> for DeviceError {
    open spec fn obeys_from_spec() -> bool {
        true
    }

    open spec fn from_spec(_error: RingBufferError) -> Self {
        DeviceError::BufferOverflow
    }
}

} // verus!
