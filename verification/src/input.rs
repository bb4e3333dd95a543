//! Flask key bindings: decoding PoE2's key codes, naming keys, and the key events a flask press sends.

use vstd::prelude::*;

use crate::text::{
    decimal, hex_padded, push_char, push_decimal, push_hex_padded, push_str, string_from,
};

verus! {

/// Win32 virtual-key code of the Shift key.
pub const VK_SHIFT: u16 = 0x10;

/// Win32 virtual-key code of the Control key.
pub const VK_CONTROL: u16 = 0x11;

/// Win32 virtual-key code of the Alt key.
pub const VK_MENU: u16 = 0x12;

/// The modifier held together with a flask key.
#[derive(Debug, Clone, Copy, PartialEq, Eq, Structural)]
pub enum KeyModifier {
    NoModifier,
    Shift,
    Control,
    Alt,
}

/// A keyboard binding: a Win32 virtual-key code with an optional modifier.
#[derive(Debug, Clone, Copy, PartialEq, Eq, Structural)]
pub struct KeyBinding {
    pub vk: u16,
    pub modifier: KeyModifier,
}

/// Why a PoE2 key code cannot be used as a flask binding.
#[derive(Debug, Clone, Copy, PartialEq, Eq, Structural)]
pub enum BindingError {
    /// The key code is 0 or above 0xFF.
    KeyOutOfRange(u16),
    /// The key code names a mouse button.
    MouseButton,
    /// The modifier value is none of 0..=3.
    UnknownModifier(u8),
}

/// One keyboard event of a flask press.
#[derive(Debug, Clone, Copy, PartialEq, Eq, Structural)]
pub struct KeyEvent {
    pub vk: u16,
    pub key_up: bool,
}

/// Mouse buttons as PoE2 writes them into key-code fields.
pub open spec fn is_mouse_button_code(vk: u16) -> bool {
    vk == 0x01 || vk == 0x02 || vk == 0x04 || vk == 0x05 || vk == 0x06
}

/// The modifier PoE2 encodes as `value`, if any.
pub open spec fn poe_modifier(value: u8) -> Option<KeyModifier> {
    if value == 0 {
        Some(KeyModifier::NoModifier)
    } else if value == 1 {
        Some(KeyModifier::Shift)
    } else if value == 2 {
        Some(KeyModifier::Control)
    } else if value == 3 {
        Some(KeyModifier::Alt)
    } else {
        None
    }
}

/// The binding PoE2's `(key code, modifier)` pair stands for, or why it is refused.
pub open spec fn poe_binding(vk: u16, modifier: u8) -> Result<KeyBinding, BindingError> {
    if vk == 0 || vk > 0xFF {
        Err(BindingError::KeyOutOfRange(vk))
    } else if is_mouse_button_code(vk) {
        Err(BindingError::MouseButton)
    } else {
        match poe_modifier(modifier) {
            Some(m) => Ok(KeyBinding { vk, modifier: m }),
            None => Err(BindingError::UnknownModifier(modifier)),
        }
    }
}

impl BindingError {
    /// The human-readable reason.
    pub open spec fn text(self) -> Seq<char> {
        match self {
            BindingError::KeyOutOfRange(vk) => "virtual-key code "@ + decimal(vk as nat)
                + " is outside the Win32 range"@,
            BindingError::MouseButton => "mouse-button flask bindings are not supported yet"@,
            BindingError::UnknownModifier(v) => "unknown PoE2 modifier value "@ + decimal(
                v as nat,
            ),
        }
    }

    /// Renders the reason as text.
    pub fn message(&self) -> (out: String)
        ensures
            out@ == self.text(),
    {
        match self {
            BindingError::KeyOutOfRange(vk) => {
                let mut s = string_from("virtual-key code ");
                push_decimal(&mut s, *vk as u64);
                push_str(&mut s, " is outside the Win32 range");
                s
            },
            BindingError::MouseButton => string_from(
                "mouse-button flask bindings are not supported yet",
            ),
            BindingError::UnknownModifier(v) => {
                let mut s = string_from("unknown PoE2 modifier value ");
                push_decimal(&mut s, *v as u64);
                s
            },
        }
    }
}

/// The name shown for a virtual-key code.
pub open spec fn key_name(vk: u16) -> Seq<char> {
    if (48 <= vk <= 57) || (65 <= vk <= 90) {
        seq![vk as char]
    } else if 0x70 <= vk <= 0x87 {
        "F"@ + decimal((vk - 0x6F) as nat)
    } else if vk == 0x08 {
        "Backspace"@
    } else if vk == 0x09 {
        "Tab"@
    } else if vk == 0x0D {
        "Enter"@
    } else if vk == 0x1B {
        "Esc"@
    } else if vk == 0x20 {
        "Space"@
    } else if vk == 0x21 {
        "PageUp"@
    } else if vk == 0x22 {
        "PageDown"@
    } else if vk == 0x23 {
        "End"@
    } else if vk == 0x24 {
        "Home"@
    } else if vk == 0x25 {
        "Left"@
    } else if vk == 0x26 {
        "Up"@
    } else if vk == 0x27 {
        "Right"@
    } else if vk == 0x28 {
        "Down"@
    } else if vk == 0x2D {
        "Insert"@
    } else if vk == 0x2E {
        "Delete"@
    } else {
        "VK_0x"@ + hex_padded(vk as nat, 2)
    }
}

/// The Win32 virtual-key code that produces a modifier, if it has one.
pub open spec fn modifier_key(modifier: KeyModifier) -> Option<u16> {
    match modifier {
        KeyModifier::NoModifier => None,
        KeyModifier::Shift => Some(VK_SHIFT),
        KeyModifier::Control => Some(VK_CONTROL),
        KeyModifier::Alt => Some(VK_MENU),
    }
}

/// The key events one press of `binding` consists of: the modifier is held around the key.
pub open spec fn press_events(binding: KeyBinding) -> Seq<KeyEvent> {
    let key_down = KeyEvent { vk: binding.vk, key_up: false };
    let key_up = KeyEvent { vk: binding.vk, key_up: true };
    match modifier_key(binding.modifier) {
        Some(m) => seq![
            KeyEvent { vk: m, key_up: false },
            key_down,
            key_up,
            KeyEvent { vk: m, key_up: true },
        ],
        None => seq![key_down, key_up],
    }
}

impl KeyBinding {
    /// A binding from its parts.
    pub fn new(vk: u16, modifier: KeyModifier) -> (b: Self)
        ensures
            b == (KeyBinding { vk, modifier }),
    {
        KeyBinding { vk, modifier }
    }

    /// Decodes PoE2's `(key code, modifier)` pair; mouse buttons and unknown modifiers are refused.
    pub fn from_poe(vk: u16, modifier: u8) -> (r: Result<Self, BindingError>)
        ensures
            r == poe_binding(vk, modifier),
    {
        if vk == 0 || vk > 0xFF {
            return Err(BindingError::KeyOutOfRange(vk));
        }
        if vk == 0x01 || vk == 0x02 || vk == 0x04 || vk == 0x05 || vk == 0x06 {
            return Err(BindingError::MouseButton);
        }
        let m = match modifier {
            0 => KeyModifier::NoModifier,
            1 => KeyModifier::Shift,
            2 => KeyModifier::Control,
            3 => KeyModifier::Alt,
            value => {
                return Err(BindingError::UnknownModifier(value));
            },
        };
        Ok(KeyBinding { vk, modifier: m })
    }

    /// The shown name: the modifier, a `+`, then the key.
    pub open spec fn text(self) -> Seq<char> {
        match self.modifier {
            KeyModifier::NoModifier => key_name(self.vk),
            KeyModifier::Shift => "Shift+"@ + key_name(self.vk),
            KeyModifier::Control => "Ctrl+"@ + key_name(self.vk),
            KeyModifier::Alt => "Alt+"@ + key_name(self.vk),
        }
    }

    /// Renders the binding, such as `Shift+Q` or `Ctrl+F1`.
    pub fn label(self) -> (out: String)
        ensures
            out@ == self.text(),
    {
        let mut s = match self.modifier {
            KeyModifier::NoModifier => String::new(),
            KeyModifier::Shift => string_from("Shift+"),
            KeyModifier::Control => string_from("Ctrl+"),
            KeyModifier::Alt => string_from("Alt+"),
        };
        push_key_label(&mut s, self.vk);
        s
    }
}

/// Renders the name of a virtual-key code.
pub fn key_label(vk: u16) -> (out: String)
    ensures
        out@ == key_name(vk),
{
    let mut s = String::new();
    push_key_label(&mut s, vk);
    assert(s@ =~= key_name(vk));
    s
}

fn push_key_label(s: &mut String, vk: u16)
    ensures
        final(s)@ == old(s)@ + key_name(vk),
{
    if (48 <= vk && vk <= 57) || (65 <= vk && vk <= 90) {
        push_char(s, (vk as u8) as char);
        assert(final(s)@ =~= old(s)@ + key_name(vk));
        return ;
    }
    if 0x70 <= vk && vk <= 0x87 {
        push_char(s, 'F');
        push_decimal(s, (vk - 0x6F) as u64);
        proof {
            reveal_strlit("F");
        }
        assert(final(s)@ =~= old(s)@ + key_name(vk));
        return ;
    }
    let name: &str = match vk {
        0x08 => "Backspace",
        0x09 => "Tab",
        0x0D => "Enter",
        0x1B => "Esc",
        0x20 => "Space",
        0x21 => "PageUp",
        0x22 => "PageDown",
        0x23 => "End",
        0x24 => "Home",
        0x25 => "Left",
        0x26 => "Up",
        0x27 => "Right",
        0x28 => "Down",
        0x2D => "Insert",
        0x2E => "Delete",
        _ => {
            push_str(s, "VK_0x");
            push_hex_padded(s, vk as u64, 2);
            assert(final(s)@ =~= old(s)@ + key_name(vk));
            return ;
        },
    };
    push_str(s, name);
}

/// The virtual-key code that produces a modifier, if it has one.
pub fn modifier_vk(modifier: KeyModifier) -> (r: Option<u16>)
    ensures
        r == modifier_key(modifier),
{
    match modifier {
        KeyModifier::NoModifier => None,
        KeyModifier::Shift => Some(VK_SHIFT),
        KeyModifier::Control => Some(VK_CONTROL),
        KeyModifier::Alt => Some(VK_MENU),
    }
}

/// The key events to send for one press of `binding`, in order.
pub fn flask_key_events(binding: KeyBinding) -> (events: Vec<KeyEvent>)
    ensures
        events@ == press_events(binding),
{
    let mut events: Vec<KeyEvent> = Vec::new();
    match modifier_vk(binding.modifier) {
        Some(m) => {
            events.push(KeyEvent { vk: m, key_up: false });
            events.push(KeyEvent { vk: binding.vk, key_up: false });
            events.push(KeyEvent { vk: binding.vk, key_up: true });
            events.push(KeyEvent { vk: m, key_up: true });
        },
        None => {
            events.push(KeyEvent { vk: binding.vk, key_up: false });
            events.push(KeyEvent { vk: binding.vk, key_up: true });
        },
    }
    assert(events@ =~= press_events(binding));
    events
}

} // verus!
