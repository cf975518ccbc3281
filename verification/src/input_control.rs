//! Classification of input-side UTF-16 control code units.

use vstd::prelude::*;

verus! {

/// How one input code unit is handled.
#[derive(Debug, Clone, Copy, PartialEq, Eq, Structural)]
pub enum ControlCharacterKind {
    Print,
    CtrlC,
    MappedC0,
    DeleteAsBackspace,
}

impl ControlCharacterKind {
    /// The stable ABI number of the kind.
    pub open spec fn spec_code(self) -> u32 {
        match self {
            ControlCharacterKind::Print => 0,
            ControlCharacterKind::CtrlC => 1,
            ControlCharacterKind::MappedC0 => 2,
            ControlCharacterKind::DeleteAsBackspace => 3,
        }
    }

    pub fn code(self) -> (r: u32)
        ensures
            r == self.spec_code(),
    {
        match self {
            ControlCharacterKind::Print => 0,
            ControlCharacterKind::CtrlC => 1,
            ControlCharacterKind::MappedC0 => 2,
            ControlCharacterKind::DeleteAsBackspace => 3,
        }
    }
}

/// The synthesized key event for one code unit.
#[derive(Debug, Clone, Copy, PartialEq, Eq, Structural)]
pub struct ControlCharacterPlan {
    pub kind: ControlCharacterKind,
    pub character: u16,
    pub forced_virtual_key: u16,
    pub write_ctrl: bool,
    pub clear_layout_modifiers: bool,
}

pub open spec fn control_plan(
    kind: ControlCharacterKind,
    character: u16,
    forced_virtual_key: u16,
    write_ctrl: bool,
    clear_layout_modifiers: bool,
) -> ControlCharacterPlan {
    ControlCharacterPlan { kind, character, forced_virtual_key, write_ctrl, clear_layout_modifiers }
}

/// The input engine's control-character rules:
/// - ETX without a preceding ESC is the host-special Ctrl+C (virtual key `C`);
/// - C0 controls map to themselves with Ctrl held, except backspace (sent as
///   DEL), carriage return and escape (no Ctrl) and tab (no Ctrl, layout
///   modifiers kept); escape forces virtual key 0x1b;
/// - DEL is sent as backspace with virtual key 0x08;
/// - everything else prints unchanged.
pub open spec fn spec_classify_control_character(code_unit: u16, write_alt: bool) -> ControlCharacterPlan {
    if code_unit == 0x03 && !write_alt {
        control_plan(ControlCharacterKind::CtrlC, 0x03, 0x43, true, true)
    } else if code_unit < 0x20 {
        if code_unit == 0x08 {
            control_plan(ControlCharacterKind::MappedC0, 0x7f, 0, true, true)
        } else if code_unit == 0x0d {
            control_plan(ControlCharacterKind::MappedC0, 0x0d, 0, false, true)
        } else if code_unit == 0x1b {
            control_plan(ControlCharacterKind::MappedC0, 0x1b, 0x1b, false, true)
        } else if code_unit == 0x09 {
            control_plan(ControlCharacterKind::MappedC0, 0x09, 0, false, false)
        } else {
            control_plan(ControlCharacterKind::MappedC0, code_unit, 0, true, false)
        }
    } else if code_unit == 0x7f {
        control_plan(ControlCharacterKind::DeleteAsBackspace, 0x08, 0x08, false, true)
    } else {
        control_plan(ControlCharacterKind::Print, code_unit, 0, false, false)
    }
}

/// Classifies one UTF-16 code unit. `write_alt` tells whether an ESC preceded
/// it: ESC-prefixed ETX is ordinary Ctrl+Alt+C, not the host-special Ctrl+C.
pub fn classify_control_character(code_unit: u16, write_alt: bool) -> (r: ControlCharacterPlan)
    ensures
        r == spec_classify_control_character(code_unit, write_alt),
{
    if code_unit == 0x03 && !write_alt {
        return ControlCharacterPlan {
            kind: ControlCharacterKind::CtrlC,
            character: 0x03,
            forced_virtual_key: 0x43,
            write_ctrl: true,
            clear_layout_modifiers: true,
        };
    }
    if code_unit < 0x20 {
        return match code_unit {
            0x08 => ControlCharacterPlan {
                kind: ControlCharacterKind::MappedC0,
                character: 0x7f,
                forced_virtual_key: 0,
                write_ctrl: true,
                clear_layout_modifiers: true,
            },
            0x0d => ControlCharacterPlan {
                kind: ControlCharacterKind::MappedC0,
                character: 0x0d,
                forced_virtual_key: 0,
                write_ctrl: false,
                clear_layout_modifiers: true,
            },
            0x1b => ControlCharacterPlan {
                kind: ControlCharacterKind::MappedC0,
                character: 0x1b,
                forced_virtual_key: 0x1b,
                write_ctrl: false,
                clear_layout_modifiers: true,
            },
            0x09 => ControlCharacterPlan {
                kind: ControlCharacterKind::MappedC0,
                character: 0x09,
                forced_virtual_key: 0,
                write_ctrl: false,
                clear_layout_modifiers: false,
            },
            _ => ControlCharacterPlan {
                kind: ControlCharacterKind::MappedC0,
                character: code_unit,
                forced_virtual_key: 0,
                write_ctrl: true,
                clear_layout_modifiers: false,
            },
        };
    }
    if code_unit == 0x7f {
        return ControlCharacterPlan {
            kind: ControlCharacterKind::DeleteAsBackspace,
            character: 0x08,
            forced_virtual_key: 0x08,
            write_ctrl: false,
            clear_layout_modifiers: true,
        };
    }
    ControlCharacterPlan {
        kind: ControlCharacterKind::Print,
        character: code_unit,
        forced_virtual_key: 0,
        write_ctrl: false,
        clear_layout_modifiers: false,
    }
}

/// Every C0 control except an unescaped ETX is a mapped C0 control.
pub proof fn lemma_c0_controls_are_mapped(code_unit: u16, write_alt: bool)
    requires
        code_unit < 0x20,
        !(code_unit == 0x03 && !write_alt),
    ensures
        spec_classify_control_character(code_unit, write_alt).kind == ControlCharacterKind::MappedC0,
{
}

/// The synthesized character is the code unit itself, except that
/// backspace is sent as DEL and DEL as backspace; Ctrl is only ever held for
/// C0 controls.
pub proof fn law_character_is_the_code_unit(code_unit: u16, write_alt: bool)
    ensures
        ({
            let plan = spec_classify_control_character(code_unit, write_alt);
            &&& code_unit != 0x08 && code_unit != 0x7f ==> plan.character == code_unit
            &&& code_unit == 0x08 ==> plan.character == 0x7f
            &&& code_unit == 0x7f ==> plan.character == 0x08
            &&& plan.write_ctrl ==> code_unit < 0x20
        }),
{
}

/// Printable code units (neither C0 nor DEL) pass through unchanged and
/// neither Ctrl nor a forced key is synthesized.
pub proof fn lemma_printable_passes_through(code_unit: u16, write_alt: bool)
    requires
        code_unit >= 0x20,
        code_unit != 0x7f,
    ensures
        spec_classify_control_character(code_unit, write_alt) == control_plan(
            ControlCharacterKind::Print,
            code_unit,
            0,
            false,
            false,
        ),
{
}

} // verus!
