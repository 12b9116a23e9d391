//! The interrupt vector table layout.

use vstd::prelude::*;

use crate::interrupt::Interrupt;
use crate::interrupt::TargetVariant;

verus! {

/// One slot of the vector table: either a reference to the handler of the
/// interrupt whose code equals the slot's index, or the reserved marker that
/// stands for the hardware's fixed zero pattern where no interrupt is
/// defined.
#[derive(Clone, Copy, PartialEq, Eq, Structural, Debug)]
pub enum Vector {
    /// The slot dispatches to the handler of this interrupt.
    Handler(Interrupt),
    /// The hardware defines no interrupt at this slot; the slot holds the
    /// zero pattern.
    Reserved,
}

/// The number of vector table slots under the given target variant: the
/// maximum defined interrupt code plus one.
pub open spec fn table_len(variant: TargetVariant) -> int {
    match variant {
        TargetVariant::Base => 32,
        TargetVariant::Extended => 44,
    }
}

/// The codes the hardware leaves permanently reserved: no identifier is bound
/// to them and their table slots hold the zero pattern. Under the base
/// variant only code 27 is in range.
pub open spec fn reserved_code(code: int) -> bool {
    code == 27 || code == 32 || code == 34 || code == 39 || code == 40 || code == 41
}

/// The slot at a given index of the vector table. The layout does not depend
/// on the target variant: the variant only decides how many slots exist.
pub open spec fn table_entry(code: int) -> Vector {
    if code == 0 {
        Vector::Handler(Interrupt::GPIOA)
    } else if code == 1 {
        Vector::Handler(Interrupt::GPIOB)
    } else if code == 2 {
        Vector::Handler(Interrupt::GPIOC)
    } else if code == 3 {
        Vector::Handler(Interrupt::GPIOD)
    } else if code == 4 {
        Vector::Handler(Interrupt::GPIOE)
    } else if code == 5 {
        Vector::Handler(Interrupt::UART0)
    } else if code == 6 {
        Vector::Handler(Interrupt::UART1)
    } else if code == 7 {
        Vector::Handler(Interrupt::SSI0)
    } else if code == 8 {
        Vector::Handler(Interrupt::I2C0)
    } else if code == 9 {
        Vector::Handler(Interrupt::PWM_FAULT)
    } else if code == 10 {
        Vector::Handler(Interrupt::PWM_GENERATOR_0)
    } else if code == 11 {
        Vector::Handler(Interrupt::PWM_GENERATOR_1)
    } else if code == 12 {
        Vector::Handler(Interrupt::PWM_GENERATOR_2)
    } else if code == 13 {
        Vector::Handler(Interrupt::QEI0)
    } else if code == 14 {
        Vector::Handler(Interrupt::ADC0_SEQUENCE_0)
    } else if code == 15 {
        Vector::Handler(Interrupt::ADC0_SEQUENCE_1)
    } else if code == 16 {
        Vector::Handler(Interrupt::ADC0_SEQUENCE_2)
    } else if code == 17 {
        Vector::Handler(Interrupt::ADC0_SEQUENCE_3)
    } else if code == 18 {
        Vector::Handler(Interrupt::WATCHDOG_TIMER_0)
    } else if code == 19 {
        Vector::Handler(Interrupt::TIMER_0A)
    } else if code == 20 {
        Vector::Handler(Interrupt::TIMER_0B)
    } else if code == 21 {
        Vector::Handler(Interrupt::TIMER_1A)
    } else if code == 22 {
        Vector::Handler(Interrupt::TIMER_1B)
    } else if code == 23 {
        Vector::Handler(Interrupt::TIMER_2A)
    } else if code == 24 {
        Vector::Handler(Interrupt::TIMER_2B)
    } else if code == 25 {
        Vector::Handler(Interrupt::ANALOG_COMPARATOR_0)
    } else if code == 26 {
        Vector::Handler(Interrupt::ANALOG_COMPARATOR_1)
    } else if code == 28 {
        Vector::Handler(Interrupt::SYSTEM_CONTROL)
    } else if code == 29 {
        Vector::Handler(Interrupt::FLASH_MEMORY_CONTROL)
    } else if code == 30 {
        Vector::Handler(Interrupt::GPIOF)
    } else if code == 31 {
        Vector::Handler(Interrupt::GPIOG)
    } else if code == 33 {
        Vector::Handler(Interrupt::UART2)
    } else if code == 35 {
        Vector::Handler(Interrupt::TIMER_3A)
    } else if code == 36 {
        Vector::Handler(Interrupt::TIMER_3B)
    } else if code == 37 {
        Vector::Handler(Interrupt::I2C1)
    } else if code == 38 {
        Vector::Handler(Interrupt::QEI1)
    } else if code == 42 {
        Vector::Handler(Interrupt::ETHERNET)
    } else if code == 43 {
        Vector::Handler(Interrupt::HIBERNATION)
    } else {
        Vector::Reserved
    }
}

/// The whole vector table of a target variant: slot `i` belongs to interrupt
/// code `i`.
pub open spec fn spec_table(variant: TargetVariant) -> Seq<Vector> {
    Seq::new(table_len(variant) as nat, |code: int| table_entry(code))
}

/// The slot for one interrupt code.
fn entry_at(code: usize) -> (entry: Vector)
    ensures
        entry == table_entry(code as int),
{
    match code {
        0 => Vector::Handler(Interrupt::GPIOA),
        1 => Vector::Handler(Interrupt::GPIOB),
        2 => Vector::Handler(Interrupt::GPIOC),
        3 => Vector::Handler(Interrupt::GPIOD),
        4 => Vector::Handler(Interrupt::GPIOE),
        5 => Vector::Handler(Interrupt::UART0),
        6 => Vector::Handler(Interrupt::UART1),
        7 => Vector::Handler(Interrupt::SSI0),
        8 => Vector::Handler(Interrupt::I2C0),
        9 => Vector::Handler(Interrupt::PWM_FAULT),
        10 => Vector::Handler(Interrupt::PWM_GENERATOR_0),
        11 => Vector::Handler(Interrupt::PWM_GENERATOR_1),
        12 => Vector::Handler(Interrupt::PWM_GENERATOR_2),
        13 => Vector::Handler(Interrupt::QEI0),
        14 => Vector::Handler(Interrupt::ADC0_SEQUENCE_0),
        15 => Vector::Handler(Interrupt::ADC0_SEQUENCE_1),
        16 => Vector::Handler(Interrupt::ADC0_SEQUENCE_2),
        17 => Vector::Handler(Interrupt::ADC0_SEQUENCE_3),
        18 => Vector::Handler(Interrupt::WATCHDOG_TIMER_0),
        19 => Vector::Handler(Interrupt::TIMER_0A),
        20 => Vector::Handler(Interrupt::TIMER_0B),
        21 => Vector::Handler(Interrupt::TIMER_1A),
        22 => Vector::Handler(Interrupt::TIMER_1B),
        23 => Vector::Handler(Interrupt::TIMER_2A),
        24 => Vector::Handler(Interrupt::TIMER_2B),
        25 => Vector::Handler(Interrupt::ANALOG_COMPARATOR_0),
        26 => Vector::Handler(Interrupt::ANALOG_COMPARATOR_1),
        28 => Vector::Handler(Interrupt::SYSTEM_CONTROL),
        29 => Vector::Handler(Interrupt::FLASH_MEMORY_CONTROL),
        30 => Vector::Handler(Interrupt::GPIOF),
        31 => Vector::Handler(Interrupt::GPIOG),
        33 => Vector::Handler(Interrupt::UART2),
        35 => Vector::Handler(Interrupt::TIMER_3A),
        36 => Vector::Handler(Interrupt::TIMER_3B),
        37 => Vector::Handler(Interrupt::I2C1),
        38 => Vector::Handler(Interrupt::QEI1),
        42 => Vector::Handler(Interrupt::ETHERNET),
        43 => Vector::Handler(Interrupt::HIBERNATION),
        _ => Vector::Reserved,
    }
}

/// Build the vector table of a target variant: 32 slots for the base
/// variant, 44 for the extended one, slot `i` holding the handler reference
/// for interrupt code `i` or the reserved marker where the hardware defines
/// no interrupt. In the device image this sequence is what the linker places
/// at the interrupt-vector region.
pub fn vector_table(variant: TargetVariant) -> (table: Vec<Vector>)
    ensures
        table@ == spec_table(variant),
        table@.len() == table_len(variant),
{
    let n: usize = match variant {
        TargetVariant::Base => 32,
        TargetVariant::Extended => 44,
    };
    let mut table: Vec<Vector> = Vec::new();
    for code in 0..n
        invariant
            n == table_len(variant),
            table@.len() == code,
            forall|i: int| 0 <= i < code ==> table@[i] == table_entry(i),
    {
        table.push(entry_at(code));
    }
    proof {
        assert(table@ =~= spec_table(variant));
    }
    table
}

/// Every slot of the table is initialized, and is either the handler
/// reference of the identifier whose code equals the slot's index, or the
/// reserved zero marker exactly at the codes the hardware leaves reserved.
pub proof fn lemma_table_well_formed(variant: TargetVariant, code: int)
    requires
        0 <= code < table_len(variant),
    ensures
        spec_table(variant).len() == table_len(variant),
        reserved_code(code) ==> spec_table(variant)[code] is Reserved,
        !reserved_code(code) ==> (spec_table(variant)[code] matches Vector::Handler(id)
            && id.spec_number() == code && id.spec_available(variant)),
{
}

/// Every identifier available under a variant owns exactly the handler slot
/// at its own code; together with [`lemma_table_well_formed`] and
/// [`crate::interrupt::lemma_number_injective`] this makes the numbering a
/// bijection from the variant's identifiers onto the table's handler slots:
/// no identifier maps to a reserved slot, and no reserved slot corresponds to
/// an identifier.
pub proof fn lemma_identifier_owns_slot(variant: TargetVariant, id: Interrupt)
    requires
        id.spec_available(variant),
    ensures
        0 <= id.spec_number() < table_len(variant),
        !reserved_code(id.spec_number() as int),
        spec_table(variant)[id.spec_number() as int] == Vector::Handler(id),
{
}

/// The extended-only identifiers are absent from the base variant's
/// identifier set, and their codes lie beyond the base table's addressable
/// range.
pub proof fn lemma_extended_only_beyond_base(id: Interrupt)
    requires
        id.spec_extended_only(),
    ensures
        !id.spec_available(TargetVariant::Base),
        id.spec_number() >= table_len(TargetVariant::Base),
{
}

} // verus!
