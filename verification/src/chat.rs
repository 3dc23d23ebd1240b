//! Chat message classification and the console/screen charset fixup.

use vstd::prelude::*;

verus! {

/// A chat qualifier letter (after `#`) with no known rendering, or a
/// chat message too short to hold one.
#[derive(Debug, Copy, Clone, Eq, PartialEq, Structural)]
pub struct InvalidChatQualifier(pub Option<u8>);

/// The rendering/coloring of a chat line, sent as one byte.
#[derive(Debug, Copy, Clone, Eq, PartialEq, Structural)]
pub enum ChatType {
    RedScreenOnly,
    GreyConsoleOnly,
    GreenConsoleYellowScreen,
    GreyConsoleWhiteScreen,
    GreyConsoleYellowScreen,
    GreyConsoleYellowScreen2,
    RedConsoleWhiteScreen,
    RedConsoleYellowScreen,
    RedConsoleYellowScreen2,
    RedConsoleYellowScreen3,
    GreenScreenOnly,
    BlueConsoleYellowScreen,
    BlueConsoleYellowScreen2,
    BlueConsoleWhiteScreen,
    BlueConsoleYellowScreen3,
    BlueConsoleYellowScreen4,
    Normal,
    Whisper,
    Yell,
}

impl ChatType {
    /// The wire byte for this chat rendering.
    pub open spec fn spec_number(self) -> u8 {
        match self {
            ChatType::RedScreenOnly => 0x41,
            ChatType::GreyConsoleOnly => 0x42,
            ChatType::GreenConsoleYellowScreen => 0x43,
            ChatType::GreyConsoleWhiteScreen => 0x44,
            ChatType::GreyConsoleYellowScreen => 0x45,
            ChatType::GreyConsoleYellowScreen2 => 0x46,
            ChatType::RedConsoleWhiteScreen => 0x47,
            ChatType::RedConsoleYellowScreen => 0x48,
            ChatType::RedConsoleYellowScreen2 => 0x49,
            ChatType::RedConsoleYellowScreen3 => 0x4a,
            ChatType::GreenScreenOnly => 0x4d,
            ChatType::BlueConsoleYellowScreen => 0x4e,
            ChatType::BlueConsoleYellowScreen2 => 0x4f,
            ChatType::BlueConsoleWhiteScreen => 0x50,
            ChatType::BlueConsoleYellowScreen3 => 0x51,
            ChatType::BlueConsoleYellowScreen4 => 0x52,
            ChatType::Normal => 0x53,
            ChatType::Whisper => 0x57,
            ChatType::Yell => 0x59,
        }
    }

    #[verifier::when_used_as_spec(spec_number)]
    pub fn number(self) -> (n: u8)
        ensures
            n == self.spec_number(),
    {
        match self {
            ChatType::RedScreenOnly => 0x41,
            ChatType::GreyConsoleOnly => 0x42,
            ChatType::GreenConsoleYellowScreen => 0x43,
            ChatType::GreyConsoleWhiteScreen => 0x44,
            ChatType::GreyConsoleYellowScreen => 0x45,
            ChatType::GreyConsoleYellowScreen2 => 0x46,
            ChatType::RedConsoleWhiteScreen => 0x47,
            ChatType::RedConsoleYellowScreen => 0x48,
            ChatType::RedConsoleYellowScreen2 => 0x49,
            ChatType::RedConsoleYellowScreen3 => 0x4a,
            ChatType::GreenScreenOnly => 0x4d,
            ChatType::BlueConsoleYellowScreen => 0x4e,
            ChatType::BlueConsoleYellowScreen2 => 0x4f,
            ChatType::BlueConsoleWhiteScreen => 0x50,
            ChatType::BlueConsoleYellowScreen3 => 0x51,
            ChatType::BlueConsoleYellowScreen4 => 0x52,
            ChatType::Normal => 0x53,
            ChatType::Whisper => 0x57,
            ChatType::Yell => 0x59,
        }
    }

    pub open spec fn spec_from_number(n: u8) -> Option<ChatType> {
        if n == 0x41 {
            Some(ChatType::RedScreenOnly)
        } else if n == 0x42 {
            Some(ChatType::GreyConsoleOnly)
        } else if n == 0x43 {
            Some(ChatType::GreenConsoleYellowScreen)
        } else if n == 0x44 {
            Some(ChatType::GreyConsoleWhiteScreen)
        } else if n == 0x45 {
            Some(ChatType::GreyConsoleYellowScreen)
        } else if n == 0x46 {
            Some(ChatType::GreyConsoleYellowScreen2)
        } else if n == 0x47 {
            Some(ChatType::RedConsoleWhiteScreen)
        } else if n == 0x48 {
            Some(ChatType::RedConsoleYellowScreen)
        } else if n == 0x49 {
            Some(ChatType::RedConsoleYellowScreen2)
        } else if n == 0x4a {
            Some(ChatType::RedConsoleYellowScreen3)
        } else if n == 0x4d {
            Some(ChatType::GreenScreenOnly)
        } else if n == 0x4e {
            Some(ChatType::BlueConsoleYellowScreen)
        } else if n == 0x4f {
            Some(ChatType::BlueConsoleYellowScreen2)
        } else if n == 0x50 {
            Some(ChatType::BlueConsoleWhiteScreen)
        } else if n == 0x51 {
            Some(ChatType::BlueConsoleYellowScreen3)
        } else if n == 0x52 {
            Some(ChatType::BlueConsoleYellowScreen4)
        } else if n == 0x53 {
            Some(ChatType::Normal)
        } else if n == 0x57 {
            Some(ChatType::Whisper)
        } else if n == 0x59 {
            Some(ChatType::Yell)
        } else {
            None
        }
    }

    pub fn try_from_number(n: u8) -> (r: Option<ChatType>)
        ensures
            r == Self::spec_from_number(n),
    {
        if n == 0x41 {
            Some(ChatType::RedScreenOnly)
        } else if n == 0x42 {
            Some(ChatType::GreyConsoleOnly)
        } else if n == 0x43 {
            Some(ChatType::GreenConsoleYellowScreen)
        } else if n == 0x44 {
            Some(ChatType::GreyConsoleWhiteScreen)
        } else if n == 0x45 {
            Some(ChatType::GreyConsoleYellowScreen)
        } else if n == 0x46 {
            Some(ChatType::GreyConsoleYellowScreen2)
        } else if n == 0x47 {
            Some(ChatType::RedConsoleWhiteScreen)
        } else if n == 0x48 {
            Some(ChatType::RedConsoleYellowScreen)
        } else if n == 0x49 {
            Some(ChatType::RedConsoleYellowScreen2)
        } else if n == 0x4a {
            Some(ChatType::RedConsoleYellowScreen3)
        } else if n == 0x4d {
            Some(ChatType::GreenScreenOnly)
        } else if n == 0x4e {
            Some(ChatType::BlueConsoleYellowScreen)
        } else if n == 0x4f {
            Some(ChatType::BlueConsoleYellowScreen2)
        } else if n == 0x50 {
            Some(ChatType::BlueConsoleWhiteScreen)
        } else if n == 0x51 {
            Some(ChatType::BlueConsoleYellowScreen3)
        } else if n == 0x52 {
            Some(ChatType::BlueConsoleYellowScreen4)
        } else if n == 0x53 {
            Some(ChatType::Normal)
        } else if n == 0x57 {
            Some(ChatType::Whisper)
        } else if n == 0x59 {
            Some(ChatType::Yell)
        } else {
            None
        }
    }

    /// The rendering selected by a chat qualifier letter, upper or lower
    /// case.  Letters outside the recognized set are rejected.
    pub open spec fn spec_from_qualifier(value: Option<u8>) -> Result<
        ChatType,
        InvalidChatQualifier,
    > {
        match value {
            Some(c) => if c == 0x61 || c == 0x41 {
                Ok(ChatType::RedScreenOnly)
            } else if c == 0x67 || c == 0x47 {
                Ok(ChatType::RedConsoleWhiteScreen)
            } else if c == 0x79 || c == 0x59 {
                Ok(ChatType::Yell)
            } else if c == 0x62 || c == 0x42 {
                Ok(ChatType::GreyConsoleWhiteScreen)
            } else if c == 0x77 || c == 0x57 {
                Ok(ChatType::Whisper)
            } else {
                Err(InvalidChatQualifier(Some(c)))
            },
            None => Err(InvalidChatQualifier(None)),
        }
    }

    pub fn try_from_qualifier(value: Option<u8>) -> (r: Result<ChatType, InvalidChatQualifier>)
        ensures
            r == Self::spec_from_qualifier(value),
    {
        match value {
            Some(c) => {
                if c == 0x61 || c == 0x41 {
                    Ok(ChatType::RedScreenOnly)
                } else if c == 0x67 || c == 0x47 {
                    Ok(ChatType::RedConsoleWhiteScreen)
                } else if c == 0x79 || c == 0x59 {
                    Ok(ChatType::Yell)
                } else if c == 0x62 || c == 0x42 {
                    Ok(ChatType::GreyConsoleWhiteScreen)
                } else if c == 0x77 || c == 0x57 {
                    Ok(ChatType::Whisper)
                } else {
                    Err(InvalidChatQualifier(Some(c)))
                }
            },
            None => Err(InvalidChatQualifier(None)),
        }
    }
}

// ---------------------------------------------------------------------
// Console/screen charset translation
// ---------------------------------------------------------------------

/// Text console and screen use different charsets; translating these
/// bytes keeps greater coherence between console and screen characters.
pub open spec fn spec_translate_char(input: u8) -> u8 {
    if input == 0x5b {
        0xc4
    } else if input == 0x5c {
        0xd6
    } else if input == 0x5d {
        0xdc
    } else if input == 0x7b {
        0xe4
    } else if input == 0x7c {
        0xf6
    } else if input == 0x7d {
        0xfc
    } else if input == 0x7f {
        0xdf
    } else {
        input
    }
}

#[verifier::when_used_as_spec(spec_translate_char)]
pub fn translate_char(input: u8) -> (r: u8)
    ensures
        r == spec_translate_char(input),
{
    if input == 0x5b {
        0xc4
    } else if input == 0x5c {
        0xd6
    } else if input == 0x5d {
        0xdc
    } else if input == 0x7b {
        0xe4
    } else if input == 0x7c {
        0xf6
    } else if input == 0x7d {
        0xfc
    } else if input == 0x7f {
        0xdf
    } else {
        input
    }
}

/// As [`spec_translate_char`], with the lower-case umlauts mapped to
/// their upper-case translations (used for yelled text).
pub open spec fn spec_translate_char_upper(input: u8) -> u8 {
    if input == 0x5b {
        0xc4
    } else if input == 0x5c {
        0xd6
    } else if input == 0x5d {
        0xdc
    } else if input == 0x7b {
        0xc4
    } else if input == 0x7c {
        0xd6
    } else if input == 0x7d {
        0xdc
    } else if input == 0x7f {
        0xdf
    } else {
        input
    }
}

#[verifier::when_used_as_spec(spec_translate_char_upper)]
pub fn translate_char_upper(input: u8) -> (r: u8)
    ensures
        r == spec_translate_char_upper(input),
{
    if input == 0x5b {
        0xc4
    } else if input == 0x5c {
        0xd6
    } else if input == 0x5d {
        0xdc
    } else if input == 0x7b {
        0xc4
    } else if input == 0x7c {
        0xd6
    } else if input == 0x7d {
        0xdc
    } else if input == 0x7f {
        0xdf
    } else {
        input
    }
}

pub fn translate(input: &Vec<u8>) -> (r: Vec<u8>)
    ensures
        r@ == input@.map_values(|c: u8| spec_translate_char(c)),
{
    let mut out: Vec<u8> = Vec::new();
    let mut i: usize = 0;
    while i < input.len()
        invariant
            i <= input@.len(),
            out@ == input@.take(i as int).map_values(|c: u8| spec_translate_char(c)),
        decreases input@.len() - i,
    {
        out.push(translate_char(input[i]));
        assert(out@ =~= input@.take(i + 1).map_values(|c: u8| spec_translate_char(c)));
        i = i + 1;
    }
    assert(out@ =~= input@.map_values(|c: u8| spec_translate_char(c)));
    out
}

pub fn translate_upper(input: &Vec<u8>) -> (r: Vec<u8>)
    ensures
        r@ == input@.map_values(|c: u8| spec_translate_char_upper(c)),
{
    let mut out: Vec<u8> = Vec::new();
    let mut i: usize = 0;
    while i < input.len()
        invariant
            i <= input@.len(),
            out@ == input@.take(i as int).map_values(|c: u8| spec_translate_char_upper(c)),
        decreases input@.len() - i,
    {
        out.push(translate_char_upper(input[i]));
        assert(out@ =~= input@.take(i + 1).map_values(|c: u8| spec_translate_char_upper(c)));
        i = i + 1;
    }
    assert(out@ =~= input@.map_values(|c: u8| spec_translate_char_upper(c)));
    out
}

} // verus!
