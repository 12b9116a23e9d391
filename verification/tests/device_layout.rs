use lm3s6965::interrupt::Interrupt;
use lm3s6965::interrupt::TargetVariant;
use lm3s6965::interrupt::nvic_prio_bits;
use lm3s6965::peripherals::Peripherals;
use lm3s6965::vectors::Vector;
use lm3s6965::vectors::vector_table;

fn all_interrupts() -> Vec<Interrupt> {
    vec![
        Interrupt::GPIOA,
        Interrupt::GPIOB,
        Interrupt::GPIOC,
        Interrupt::GPIOD,
        Interrupt::GPIOE,
        Interrupt::UART0,
        Interrupt::UART1,
        Interrupt::SSI0,
        Interrupt::I2C0,
        Interrupt::PWM_FAULT,
        Interrupt::PWM_GENERATOR_0,
        Interrupt::PWM_GENERATOR_1,
        Interrupt::PWM_GENERATOR_2,
        Interrupt::QEI0,
        Interrupt::ADC0_SEQUENCE_0,
        Interrupt::ADC0_SEQUENCE_1,
        Interrupt::ADC0_SEQUENCE_2,
        Interrupt::ADC0_SEQUENCE_3,
        Interrupt::WATCHDOG_TIMER_0,
        Interrupt::TIMER_0A,
        Interrupt::TIMER_0B,
        Interrupt::TIMER_1A,
        Interrupt::TIMER_1B,
        Interrupt::TIMER_2A,
        Interrupt::TIMER_2B,
        Interrupt::ANALOG_COMPARATOR_0,
        Interrupt::ANALOG_COMPARATOR_1,
        Interrupt::SYSTEM_CONTROL,
        Interrupt::FLASH_MEMORY_CONTROL,
        Interrupt::GPIOF,
        Interrupt::GPIOG,
        Interrupt::UART2,
        Interrupt::TIMER_3A,
        Interrupt::TIMER_3B,
        Interrupt::I2C1,
        Interrupt::QEI1,
        Interrupt::ETHERNET,
        Interrupt::HIBERNATION,
    ]
}

fn reserved_codes(variant: TargetVariant) -> Vec<u16> {
    match variant {
        TargetVariant::Base => vec![27],
        TargetVariant::Extended => vec![27, 32, 34, 39, 40, 41],
    }
}

#[test]
fn numbering_spot_values() {
    assert_eq!(Interrupt::GPIOA.number(), 0);
    assert_eq!(Interrupt::UART0.number(), 5);
    assert_eq!(Interrupt::ANALOG_COMPARATOR_1.number(), 26);
    assert_eq!(Interrupt::SYSTEM_CONTROL.number(), 28);
    assert_eq!(Interrupt::GPIOG.number(), 31);
    assert_eq!(Interrupt::UART2.number(), 33);
    assert_eq!(Interrupt::QEI1.number(), 38);
    assert_eq!(Interrupt::ETHERNET.number(), 42);
    assert_eq!(Interrupt::HIBERNATION.number(), 43);
}

#[test]
fn numbering_is_injective() {
    let ids = all_interrupts();
    for (i, a) in ids.iter().enumerate() {
        for b in ids.iter().skip(i + 1) {
            assert_ne!(a.number(), b.number());
        }
    }
}

#[test]
fn no_identifier_has_a_reserved_code() {
    for id in all_interrupts() {
        for variant in [TargetVariant::Base, TargetVariant::Extended] {
            assert!(!reserved_codes(variant).contains(&id.number()));
        }
    }
}

#[test]
fn extended_only_identifiers_absent_from_base() {
    let extended_only = [
        Interrupt::UART2,
        Interrupt::TIMER_3A,
        Interrupt::TIMER_3B,
        Interrupt::I2C1,
        Interrupt::QEI1,
        Interrupt::ETHERNET,
        Interrupt::HIBERNATION,
    ];
    let base_table = vector_table(TargetVariant::Base);
    for id in extended_only {
        assert!(!id.available(TargetVariant::Base));
        assert!(id.available(TargetVariant::Extended));
        // Their codes lie beyond the base table's addressable range.
        assert!(usize::from(id.number()) >= base_table.len());
    }
    for id in all_interrupts() {
        if !extended_only.contains(&id) {
            assert!(id.available(TargetVariant::Base));
            assert!(id.available(TargetVariant::Extended));
        }
    }
}

#[test]
fn table_lengths() {
    assert_eq!(vector_table(TargetVariant::Base).len(), 32);
    assert_eq!(vector_table(TargetVariant::Extended).len(), 44);
}

#[test]
fn base_slot_zero_is_gpioa() {
    let table = vector_table(TargetVariant::Base);
    assert_eq!(table[0], Vector::Handler(Interrupt::GPIOA));
}

#[test]
fn base_slot_27_is_reserved() {
    let table = vector_table(TargetVariant::Base);
    assert_eq!(table[27], Vector::Reserved);
}

#[test]
fn extended_slot_33_is_uart2_and_base_has_no_slot_33() {
    let extended = vector_table(TargetVariant::Extended);
    assert_eq!(extended[33], Vector::Handler(Interrupt::UART2));
    let base = vector_table(TargetVariant::Base);
    assert!(base.len() <= 33);
}

#[test]
fn every_slot_is_handler_of_its_code_or_reserved() {
    for variant in [TargetVariant::Base, TargetVariant::Extended] {
        let table = vector_table(variant);
        let reserved = reserved_codes(variant);
        for (code, entry) in table.iter().enumerate() {
            match entry {
                Vector::Handler(id) => {
                    assert_eq!(usize::from(id.number()), code);
                    assert!(id.available(variant));
                    assert!(!reserved.contains(&(code as u16)));
                }
                Vector::Reserved => {
                    assert!(reserved.contains(&(code as u16)));
                }
            }
        }
    }
}

#[test]
fn every_available_identifier_owns_its_slot() {
    for variant in [TargetVariant::Base, TargetVariant::Extended] {
        let table = vector_table(variant);
        let mut available_count: usize = 0;
        for id in all_interrupts() {
            if id.available(variant) {
                available_count += 1;
                assert_eq!(table[usize::from(id.number())], Vector::Handler(id));
            }
        }
        // The numbering is onto the handler slots: their counts agree.
        let handler_count = table
            .iter()
            .filter(|entry| matches!(entry, Vector::Handler(_)))
            .count();
        assert_eq!(handler_count, available_count);
    }
}

#[test]
fn nvic_priority_bits() {
    assert_eq!(nvic_prio_bits(TargetVariant::Base), 2);
    assert_eq!(nvic_prio_bits(TargetVariant::Extended), 3);
}

#[test]
fn stealing_twice_yields_equal_tokens() {
    let first = Peripherals::steal();
    let second = Peripherals::steal();
    assert_eq!(first, second);
}
