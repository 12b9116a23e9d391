//! The interrupt identifiers and their numbering contract.

use vstd::prelude::*;

verus! {

/// The hardware configuration a build targets. The base variant exposes only
/// the interrupt sources with codes below 32; the extended variant adds the
/// sources with codes 33, 35-38 and 42-43 and a longer vector table.
#[derive(Clone, Copy, PartialEq, Eq, Structural, Debug)]
pub enum TargetVariant {
    /// The smaller configuration: 32 vector table slots.
    Base,
    /// The larger configuration: 44 vector table slots.
    Extended,
}

/// Enumeration of all interrupts.
///
/// Each identifier is bound to a fixed numeric code (see [`Interrupt::number`]).
/// The codes are an ABI-like contract with the vector table and the linker and
/// are never renumbered. Under the base variant only the identifiers with
/// codes below 32 exist (see [`Interrupt::available`]).
#[allow(non_camel_case_types)]
#[derive(Clone, Copy, PartialEq, Eq, Structural, Debug)]
pub enum Interrupt {
    /// GPIO Port A
    GPIOA,
    /// GPIO Port B
    GPIOB,
    /// GPIO Port C
    GPIOC,
    /// GPIO Port D
    GPIOD,
    /// GPIO Port E
    GPIOE,
    /// UART0
    UART0,
    /// UART1
    UART1,
    /// SSI0
    SSI0,
    /// I2C0
    I2C0,
    /// PWM fault
    PWM_FAULT,
    /// PWM Generator 0
    PWM_GENERATOR_0,
    /// PWM Generator 1
    PWM_GENERATOR_1,
    /// PWM Generator 2
    PWM_GENERATOR_2,
    /// QEI0
    QEI0,
    /// ADC0 Sequence 0
    ADC0_SEQUENCE_0,
    /// ADC0 Sequence 1
    ADC0_SEQUENCE_1,
    /// ADC0 Sequence 2
    ADC0_SEQUENCE_2,
    /// ADC0 Sequence 3
    ADC0_SEQUENCE_3,
    /// Watchdog Timer 0
    WATCHDOG_TIMER_0,
    /// Timer 0A
    TIMER_0A,
    /// Timer 0B
    TIMER_0B,
    /// Timer 1A
    TIMER_1A,
    /// Timer 1B
    TIMER_1B,
    /// Timer 2A
    TIMER_2A,
    /// Timer 2B
    TIMER_2B,
    /// Analog Comparator 0
    ANALOG_COMPARATOR_0,
    /// Analog Comparator 1
    ANALOG_COMPARATOR_1,
    /// System Control
    SYSTEM_CONTROL,
    /// Flash Memory Control
    FLASH_MEMORY_CONTROL,
    /// GPIO Port F
    GPIOF,
    /// GPIO Port G
    GPIOG,
    /// UART2 (extended variant only)
    UART2,
    /// Timer 3A (extended variant only)
    TIMER_3A,
    /// Timer 3B (extended variant only)
    TIMER_3B,
    /// I2C1 (extended variant only)
    I2C1,
    /// QEI1 (extended variant only)
    QEI1,
    /// Ethernet Controller (extended variant only)
    ETHERNET,
    /// Hibernation Module (extended variant only)
    HIBERNATION,
}

impl Interrupt {
    /// The numeric code bound to each identifier. The codes 27, 32, 34, 39,
    /// 40 and 41 are reserved by the hardware and bound to no identifier.
    pub open spec fn spec_number(self) -> u16 {
        match self {
            Interrupt::GPIOA => 0,
            Interrupt::GPIOB => 1,
            Interrupt::GPIOC => 2,
            Interrupt::GPIOD => 3,
            Interrupt::GPIOE => 4,
            Interrupt::UART0 => 5,
            Interrupt::UART1 => 6,
            Interrupt::SSI0 => 7,
            Interrupt::I2C0 => 8,
            Interrupt::PWM_FAULT => 9,
            Interrupt::PWM_GENERATOR_0 => 10,
            Interrupt::PWM_GENERATOR_1 => 11,
            Interrupt::PWM_GENERATOR_2 => 12,
            Interrupt::QEI0 => 13,
            Interrupt::ADC0_SEQUENCE_0 => 14,
            Interrupt::ADC0_SEQUENCE_1 => 15,
            Interrupt::ADC0_SEQUENCE_2 => 16,
            Interrupt::ADC0_SEQUENCE_3 => 17,
            Interrupt::WATCHDOG_TIMER_0 => 18,
            Interrupt::TIMER_0A => 19,
            Interrupt::TIMER_0B => 20,
            Interrupt::TIMER_1A => 21,
            Interrupt::TIMER_1B => 22,
            Interrupt::TIMER_2A => 23,
            Interrupt::TIMER_2B => 24,
            Interrupt::ANALOG_COMPARATOR_0 => 25,
            Interrupt::ANALOG_COMPARATOR_1 => 26,
            Interrupt::SYSTEM_CONTROL => 28,
            Interrupt::FLASH_MEMORY_CONTROL => 29,
            Interrupt::GPIOF => 30,
            Interrupt::GPIOG => 31,
            Interrupt::UART2 => 33,
            Interrupt::TIMER_3A => 35,
            Interrupt::TIMER_3B => 36,
            Interrupt::I2C1 => 37,
            Interrupt::QEI1 => 38,
            Interrupt::ETHERNET => 42,
            Interrupt::HIBERNATION => 43,
        }
    }

    /// Whether this identifier exists only under the extended variant.
    pub open spec fn spec_extended_only(self) -> bool {
        match self {
            Interrupt::UART2 => true,
            Interrupt::TIMER_3A => true,
            Interrupt::TIMER_3B => true,
            Interrupt::I2C1 => true,
            Interrupt::QEI1 => true,
            Interrupt::ETHERNET => true,
            Interrupt::HIBERNATION => true,
            _ => false,
        }
    }

    /// Whether this identifier exists under the given target variant.
    pub open spec fn spec_available(self, variant: TargetVariant) -> bool {
        match variant {
            TargetVariant::Base => !self.spec_extended_only(),
            TargetVariant::Extended => true,
        }
    }

    /// The identifier-to-code conversion: a pure, total function with no
    /// failure path, the sole way collaborators may obtain an interrupt's
    /// numeric code.
    #[verifier::when_used_as_spec(spec_number)]
    pub fn number(self) -> (n: u16)
        ensures
            n == self.spec_number(),
    {
        match self {
            Interrupt::GPIOA => 0,
            Interrupt::GPIOB => 1,
            Interrupt::GPIOC => 2,
            Interrupt::GPIOD => 3,
            Interrupt::GPIOE => 4,
            Interrupt::UART0 => 5,
            Interrupt::UART1 => 6,
            Interrupt::SSI0 => 7,
            Interrupt::I2C0 => 8,
            Interrupt::PWM_FAULT => 9,
            Interrupt::PWM_GENERATOR_0 => 10,
            Interrupt::PWM_GENERATOR_1 => 11,
            Interrupt::PWM_GENERATOR_2 => 12,
            Interrupt::QEI0 => 13,
            Interrupt::ADC0_SEQUENCE_0 => 14,
            Interrupt::ADC0_SEQUENCE_1 => 15,
            Interrupt::ADC0_SEQUENCE_2 => 16,
            Interrupt::ADC0_SEQUENCE_3 => 17,
            Interrupt::WATCHDOG_TIMER_0 => 18,
            Interrupt::TIMER_0A => 19,
            Interrupt::TIMER_0B => 20,
            Interrupt::TIMER_1A => 21,
            Interrupt::TIMER_1B => 22,
            Interrupt::TIMER_2A => 23,
            Interrupt::TIMER_2B => 24,
            Interrupt::ANALOG_COMPARATOR_0 => 25,
            Interrupt::ANALOG_COMPARATOR_1 => 26,
            Interrupt::SYSTEM_CONTROL => 28,
            Interrupt::FLASH_MEMORY_CONTROL => 29,
            Interrupt::GPIOF => 30,
            Interrupt::GPIOG => 31,
            Interrupt::UART2 => 33,
            Interrupt::TIMER_3A => 35,
            Interrupt::TIMER_3B => 36,
            Interrupt::I2C1 => 37,
            Interrupt::QEI1 => 38,
            Interrupt::ETHERNET => 42,
            Interrupt::HIBERNATION => 43,
        }
    }

    /// Whether this identifier exists under the given target variant. Code
    /// built for the base variant has no business naming the extended-only
    /// identifiers; this predicate is how generic code can tell.
    pub fn available(self, variant: TargetVariant) -> (b: bool)
        ensures
            b == self.spec_available(variant),
    {
        match variant {
            TargetVariant::Base => !(matches!(
                self,
                Interrupt::UART2
                    | Interrupt::TIMER_3A
                    | Interrupt::TIMER_3B
                    | Interrupt::I2C1
                    | Interrupt::QEI1
                    | Interrupt::ETHERNET
                    | Interrupt::HIBERNATION
            )),
            TargetVariant::Extended => true,
        }
    }
}

/// The number of bits the NVIC provides for configuring interrupt priority
/// under the given target variant.
pub open spec fn spec_nvic_prio_bits(variant: TargetVariant) -> u8 {
    match variant {
        TargetVariant::Base => 2,
        TargetVariant::Extended => 3,
    }
}

/// Number of bits available in the NVIC for configuring priority.
pub fn nvic_prio_bits(variant: TargetVariant) -> (bits: u8)
    ensures
        bits == spec_nvic_prio_bits(variant),
{
    match variant {
        TargetVariant::Base => 2,
        TargetVariant::Extended => 3,
    }
}

/// Distinct identifiers never share a numeric code: the numbering is
/// injective, half of what makes it a bijection onto the handler slots of the
/// vector table.
pub proof fn lemma_number_injective(a: Interrupt, b: Interrupt)
    requires
        a.spec_number() == b.spec_number(),
    ensures
        a == b,
{
}

} // verus!
