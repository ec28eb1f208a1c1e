//! The experimental register-machine target: its text rendering.

use bitbox::bitbox::{Instruction, Reg};

#[test]
fn register_machine_lines_render_in_columns() {
    assert_eq!(
        Instruction::Load(Reg::R0, 42).to_text(),
        "    load      %0        42\n"
    );
    assert_eq!(
        Instruction::Add(Reg::R1, Reg::R2, Reg::R31).to_text(),
        "    add       %1        %2        %31\n"
    );
    assert_eq!(
        Instruction::Push(Reg::R10).to_text(),
        "    push      %10\n"
    );
    assert_eq!(
        Instruction::Comment("note".to_string()).to_text(),
        "    ;; note\n"
    );
}

#[test]
fn register_machine_registers_render_by_number() {
    assert_eq!(Reg::R0.to_text(), "%0");
    assert_eq!(Reg::R31.to_text(), "%31");
    assert_eq!(Reg::R7.index(), 7);
}
