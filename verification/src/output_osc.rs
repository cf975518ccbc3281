//! OSC sequence classification by its numeric parameter.

use vstd::prelude::*;

verus! {

#[derive(Debug, Clone, Copy, PartialEq, Eq, Structural)]
pub enum OutputOscKind {
    Unmatched,
    SetWindowTitle,
    SetColorTable,
    SetDynamicColor,
    SetClipboard,
    ResetColorTable,
    ResetDynamicColor,
    SetCurrentWorkingDirectory,
    Hyperlink,
    ConEmuAction,
    FinalTermAction,
    VsCodeAction,
    UrxvtAction,
    ITerm2Action,
    WtAction,
}

impl OutputOscKind {
    pub open spec fn spec_code(self) -> u32 {
        match self {
            OutputOscKind::Unmatched => 0,
            OutputOscKind::SetWindowTitle => 1,
            OutputOscKind::SetColorTable => 2,
            OutputOscKind::SetDynamicColor => 3,
            OutputOscKind::SetClipboard => 4,
            OutputOscKind::ResetColorTable => 5,
            OutputOscKind::ResetDynamicColor => 6,
            OutputOscKind::SetCurrentWorkingDirectory => 7,
            OutputOscKind::Hyperlink => 8,
            OutputOscKind::ConEmuAction => 9,
            OutputOscKind::FinalTermAction => 10,
            OutputOscKind::VsCodeAction => 11,
            OutputOscKind::UrxvtAction => 12,
            OutputOscKind::ITerm2Action => 13,
            OutputOscKind::WtAction => 14,
        }
    }

    pub fn code(self) -> (r: u32)
        ensures
            r == self.spec_code(),
    {
        match self {
            OutputOscKind::Unmatched => 0,
            OutputOscKind::SetWindowTitle => 1,
            OutputOscKind::SetColorTable => 2,
            OutputOscKind::SetDynamicColor => 3,
            OutputOscKind::SetClipboard => 4,
            OutputOscKind::ResetColorTable => 5,
            OutputOscKind::ResetDynamicColor => 6,
            OutputOscKind::SetCurrentWorkingDirectory => 7,
            OutputOscKind::Hyperlink => 8,
            OutputOscKind::ConEmuAction => 9,
            OutputOscKind::FinalTermAction => 10,
            OutputOscKind::VsCodeAction => 11,
            OutputOscKind::UrxvtAction => 12,
            OutputOscKind::ITerm2Action => 13,
            OutputOscKind::WtAction => 14,
        }
    }
}

#[derive(Debug, Clone, Copy, PartialEq, Eq, Structural)]
pub struct OutputOscPlan {
    pub kind: u32,
}

impl Default for OutputOscPlan {
    fn default() -> (r: Self)
        ensures
            r.kind == 0,
    {
        OutputOscPlan { kind: OutputOscKind::Unmatched.code() }
    }
}

/// The OSC handler family of a parameter: 0, 1, 2, 21 title; 4 color table;
/// 10, 11, 12, 17 dynamic colors; 52 clipboard; 104 color-table reset;
/// 110, 111, 112, 117 dynamic-color reset; 7 working directory; 8 hyperlink;
/// 9 ConEmu; 133 FinalTerm; 633 VS Code; 777 urxvt; 1337 iTerm2; 9001
/// Windows Terminal. Anything else, including a value beyond `i32`, is
/// unmatched.
pub open spec fn spec_osc_kind(parameter: u64) -> OutputOscKind {
    if parameter == 0 || parameter == 1 || parameter == 2 || parameter == 21 {
        OutputOscKind::SetWindowTitle
    } else if parameter == 4 {
        OutputOscKind::SetColorTable
    } else if parameter == 10 || parameter == 11 || parameter == 12 || parameter == 17 {
        OutputOscKind::SetDynamicColor
    } else if parameter == 52 {
        OutputOscKind::SetClipboard
    } else if parameter == 104 {
        OutputOscKind::ResetColorTable
    } else if parameter == 110 || parameter == 111 || parameter == 112 || parameter == 117 {
        OutputOscKind::ResetDynamicColor
    } else if parameter == 7 {
        OutputOscKind::SetCurrentWorkingDirectory
    } else if parameter == 8 {
        OutputOscKind::Hyperlink
    } else if parameter == 9 {
        OutputOscKind::ConEmuAction
    } else if parameter == 133 {
        OutputOscKind::FinalTermAction
    } else if parameter == 633 {
        OutputOscKind::VsCodeAction
    } else if parameter == 777 {
        OutputOscKind::UrxvtAction
    } else if parameter == 1337 {
        OutputOscKind::ITerm2Action
    } else if parameter == 9001 {
        OutputOscKind::WtAction
    } else {
        OutputOscKind::Unmatched
    }
}

/// Classifies one OSC parameter.
pub fn output_osc_plan(parameter: u64) -> (r: OutputOscPlan)
    ensures
        r.kind == spec_osc_kind(parameter).spec_code(),
{
    let kind = match parameter {
        0 | 1 | 2 | 21 => OutputOscKind::SetWindowTitle,
        4 => OutputOscKind::SetColorTable,
        10 | 11 | 12 | 17 => OutputOscKind::SetDynamicColor,
        52 => OutputOscKind::SetClipboard,
        104 => OutputOscKind::ResetColorTable,
        110 | 111 | 112 | 117 => OutputOscKind::ResetDynamicColor,
        7 => OutputOscKind::SetCurrentWorkingDirectory,
        8 => OutputOscKind::Hyperlink,
        9 => OutputOscKind::ConEmuAction,
        133 => OutputOscKind::FinalTermAction,
        633 => OutputOscKind::VsCodeAction,
        777 => OutputOscKind::UrxvtAction,
        1337 => OutputOscKind::ITerm2Action,
        9001 => OutputOscKind::WtAction,
        _ => OutputOscKind::Unmatched,
    };
    OutputOscPlan { kind: kind.code() }
}

/// The smallest payload that makes an OSC handler act: a color query for 4
/// (`0;?`) and for the dynamic colors (`?`), a clipboard write for 52
/// (`c;Zm9v`), a hyperlink end for 8 (`;`), and nothing otherwise.
pub open spec fn spec_representative_text(parameter: i32) -> Seq<u16> {
    if parameter == 4 {
        seq![0x30u16, 0x3b, 0x3f]
    } else if parameter == 10 || parameter == 11 || parameter == 12 || parameter == 17 {
        seq![0x3fu16]
    } else if parameter == 52 {
        seq![0x63u16, 0x3b, 0x5a, 0x6d, 0x39, 0x76]
    } else if parameter == 8 {
        seq![0x3bu16]
    } else {
        Seq::empty()
    }
}

/// The representative UTF-16 payload for an OSC parameter.
pub fn representative_text(parameter: i32) -> (r: Vec<u16>)
    ensures
        r@ == spec_representative_text(parameter),
{
    let r: Vec<u16> = match parameter {
        4 => vec![0x30u16, 0x3b, 0x3f],
        10 | 11 | 12 | 17 => vec![0x3fu16],
        52 => vec![0x63u16, 0x3b, 0x5a, 0x6d, 0x39, 0x76],
        8 => vec![0x3bu16],
        _ => Vec::new(),
    };
    assert(r@ =~= spec_representative_text(parameter));
    r
}

} // verus!
