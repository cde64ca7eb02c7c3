//! Chat components: a text, translation or keybind root with optional style
//! attributes and child components. Their JSON form is written by the host.
use vstd::prelude::*;
use vstd::string::StringSliceAdditionalSpecFns;

verus! {

/// A chat component with its style.
#[derive(Debug)]
pub struct Chat {
    pub component: Component,
    pub bold: Option<bool>,
    pub italic: Option<bool>,
    pub underlined: Option<bool>,
    pub strikethrough: Option<bool>,
    pub obfuscated: Option<bool>,
    pub font: Option<Font>,
    pub color: Option<Color>,
    pub insertion: Option<String>,
    pub click_event: Option<ClickEvent>,
    pub hover_event: Option<HoverEvent>,
    pub extra: Option<Vec<Chat>>,
}

/// What a chat component shows.
#[derive(Debug)]
pub enum Component {
    String(TextComponent),
    Translation { translate: String, with: Option<Vec<Component>> },
    Keybind(KeybindComponent),
}

/// Literal text.
#[derive(Debug, Clone)]
pub struct TextComponent {
    pub text: String,
}

/// The key bound to a control.
#[derive(Debug, Clone)]
pub struct KeybindComponent {
    pub keybind: String,
}

/// The font a component is drawn in.
#[derive(Debug, Clone, Copy, PartialEq, Eq, Structural)]
pub enum Font {
    Uniform,
    Alt,
    Default,
}

/// A text colour: a named colour, a format code, or red, green and blue.
#[derive(Debug, Clone, Copy, PartialEq, Eq, Structural)]
pub enum Color {
    NormalColor(NormalColor),
    FormatCode(ColorFormatCode),
    WebColor(u8, u8, u8),
}

/// The named colours.
#[derive(Debug, Clone, Copy, PartialEq, Eq, Structural)]
pub enum NormalColor {
    Black,
    DarkBlue,
    DarkGreen,
    DarkCyan,
    DarkRed,
    Purple,
    Gold,
    Gray,
    DarkGray,
    Blue,
    BrightGreen,
    Cyan,
    Red,
    Pink,
    Yellow,
    White,
}

/// The formatting codes.
#[derive(Debug, Clone, Copy, PartialEq, Eq, Structural)]
pub enum ColorFormatCode {
    Black,
    DarkBlue,
    DarkGreen,
    DarkCyan,
    DarkRed,
    Purple,
    Gold,
    Gray,
    DarkGray,
    Blue,
    BrightGreen,
    Cyan,
    Red,
    Pink,
    Yellow,
    White,
    Obfuscated,
    Bold,
    Strikethrough,
    Underline,
    Italic,
    Reset,
}

/// What happens when a component is clicked.
#[derive(Debug, Clone)]
pub struct ClickEvent {
    pub action: ClickEventAction,
    pub value: String,
}

/// The kinds of click action.
#[derive(Debug, Clone, Copy, PartialEq, Eq, Structural)]
pub enum ClickEventAction {
    OpenUrl,
    RunCommand,
    SuggestCommand,
    ChangePage,
    CopyToClipboard,
}

/// What shows when the pointer rests on a component.
#[derive(Debug, Clone)]
pub struct HoverEvent {
    pub action: HoverEventAction,
    pub value: String,
}

/// The kinds of hover action.
#[derive(Debug, Clone, Copy, PartialEq, Eq, Structural)]
pub enum HoverEventAction {
    ShowText,
    ShowItem,
    ShowEntity,
}

impl Default for Component {
    /// Empty text.
    fn default() -> (r: Component)
        ensures
            r matches Component::String(t) && t.text@ == Seq::<char>::empty(),
    {
        Component::String(TextComponent { text: String::new() })
    }
}

impl Default for Chat {
    /// Empty text with no style.
    fn default() -> (r: Chat)
        ensures
            r.component matches Component::String(t) && t.text@ == Seq::<char>::empty(),
            r.bold is None,
            r.italic is None,
            r.underlined is None,
            r.strikethrough is None,
            r.obfuscated is None,
            r.font is None,
            r.color is None,
            r.insertion is None,
            r.click_event is None,
            r.hover_event is None,
            r.extra is None,
    {
        Chat {
            component: Component::default(),
            bold: None,
            italic: None,
            underlined: None,
            strikethrough: None,
            obfuscated: None,
            font: None,
            color: None,
            insertion: None,
            click_event: None,
            hover_event: None,
            extra: None,
        }
    }
}

/// The fields of a chat.
pub enum ChatField {
    Component,
    Bold,
    Italic,
    Underlined,
    Strikethrough,
    Obfuscated,
    Font,
    Color,
    Insertion,
    ClickEvent,
    HoverEvent,
    Extra,
}

/// `a` and `b` agree on every field but `field`.
pub open spec fn same_but(a: Chat, b: Chat, field: ChatField) -> bool {
    &&& (!(field is Component) ==> a.component == b.component)
    &&& (!(field is Bold) ==> a.bold == b.bold)
    &&& (!(field is Italic) ==> a.italic == b.italic)
    &&& (!(field is Underlined) ==> a.underlined == b.underlined)
    &&& (!(field is Strikethrough) ==> a.strikethrough == b.strikethrough)
    &&& (!(field is Obfuscated) ==> a.obfuscated == b.obfuscated)
    &&& (!(field is Font) ==> a.font == b.font)
    &&& (!(field is Color) ==> a.color == b.color)
    &&& (!(field is Insertion) ==> a.insertion == b.insertion)
    &&& (!(field is ClickEvent) ==> a.click_event == b.click_event)
    &&& (!(field is HoverEvent) ==> a.hover_event == b.hover_event)
    &&& (!(field is Extra) ==> a.extra == b.extra)
}

impl Chat {
    /// This chat with `component` as its root.
    pub fn with_component(self, component: Component) -> (r: Chat)
        ensures
            r.component == component,
            same_but(r, self, ChatField::Component),
    {
        let mut chat = self;
        chat.component = component;
        chat
    }

    /// This chat, bold or not.
    pub fn with_bold(self, bold: bool) -> (r: Chat)
        ensures
            r.bold == Some(bold),
            same_but(r, self, ChatField::Bold),
    {
        let mut chat = self;
        chat.bold = Some(bold);
        chat
    }

    /// This chat, italic or not.
    pub fn with_italic(self, italic: bool) -> (r: Chat)
        ensures
            r.italic == Some(italic),
            same_but(r, self, ChatField::Italic),
    {
        let mut chat = self;
        chat.italic = Some(italic);
        chat
    }

    /// This chat, underlined or not.
    pub fn with_underlined(self, underlined: bool) -> (r: Chat)
        ensures
            r.underlined == Some(underlined),
            same_but(r, self, ChatField::Underlined),
    {
        let mut chat = self;
        chat.underlined = Some(underlined);
        chat
    }

    /// This chat, struck through or not.
    pub fn with_strikethrough(self, strikethrough: bool) -> (r: Chat)
        ensures
            r.strikethrough == Some(strikethrough),
            same_but(r, self, ChatField::Strikethrough),
    {
        let mut chat = self;
        chat.strikethrough = Some(strikethrough);
        chat
    }

    /// This chat, obfuscated or not.
    pub fn with_obfuscated(self, obfuscated: bool) -> (r: Chat)
        ensures
            r.obfuscated == Some(obfuscated),
            same_but(r, self, ChatField::Obfuscated),
    {
        let mut chat = self;
        chat.obfuscated = Some(obfuscated);
        chat
    }

    /// This chat in `font`.
    pub fn with_font(self, font: Font) -> (r: Chat)
        ensures
            r.font == Some(font),
            same_but(r, self, ChatField::Font),
    {
        let mut chat = self;
        chat.font = Some(font);
        chat
    }

    /// This chat in `color`.
    pub fn with_color(self, color: Color) -> (r: Chat)
        ensures
            r.color == Some(color),
            same_but(r, self, ChatField::Color),
    {
        let mut chat = self;
        chat.color = Some(color);
        chat
    }

    /// This chat with `insertion` as the text that a shift-click inserts.
    pub fn with_insertion(self, insertion: String) -> (r: Chat)
        ensures
            r.insertion == Some(insertion),
            same_but(r, self, ChatField::Insertion),
    {
        let mut chat = self;
        chat.insertion = Some(insertion);
        chat
    }

    /// This chat with `click_event`.
    pub fn with_click_event(self, click_event: ClickEvent) -> (r: Chat)
        ensures
            r.click_event == Some(click_event),
            same_but(r, self, ChatField::ClickEvent),
    {
        let mut chat = self;
        chat.click_event = Some(click_event);
        chat
    }

    /// This chat with `hover_event`.
    pub fn with_hover_event(self, hover_event: HoverEvent) -> (r: Chat)
        ensures
            r.hover_event == Some(hover_event),
            same_but(r, self, ChatField::HoverEvent),
    {
        let mut chat = self;
        chat.hover_event = Some(hover_event);
        chat
    }

    /// This chat with `extra` added after its other children.
    pub fn with_extra(self, extra: Chat) -> (r: Chat)
        ensures
            r.extra matches Some(v) && v@ == (match self.extra {
                Some(e) => e@,
                None => Seq::<Chat>::empty(),
            }).push(extra),
            same_but(r, self, ChatField::Extra),
    {
        let mut chat = self;
        let mut children = match chat.extra {
            Some(v) => v,
            None => Vec::new(),
        };
        children.push(extra);
        chat.extra = Some(children);
        chat
    }
}

/// The value of an ASCII hexadecimal digit.
pub open spec fn hex_digit(b: u8) -> Option<u8> {
    if 0x30 <= b <= 0x39 {
        Some((b - 0x30) as u8)
    } else if 0x61 <= b <= 0x66 {
        Some((b - 0x61 + 10) as u8)
    } else if 0x41 <= b <= 0x46 {
        Some((b - 0x41 + 10) as u8)
    } else {
        None
    }
}

/// Whether every byte of `s` from `i` on is a hexadecimal digit.
pub open spec fn all_hex(s: Seq<u8>, i: int) -> bool {
    forall|j: int| i <= j < s.len() ==> (#[trigger] hex_digit(s[j])) is Some
}

/// The colour that the web-colour text `s` names: `#` and six hexadecimal
/// digits, two per channel; or `#` and three, one per channel.
pub open spec fn web_color_of(s: Seq<u8>) -> Option<(u8, u8, u8)> {
    if s.len() >= 1 && s[0] == 0x23 && all_hex(s, 1) {
        if s.len() == 7 {
            Some(
                (
                    (hex_digit(s[1])->0 * 16 + hex_digit(s[2])->0) as u8,
                    (hex_digit(s[3])->0 * 16 + hex_digit(s[4])->0) as u8,
                    (hex_digit(s[5])->0 * 16 + hex_digit(s[6])->0) as u8,
                ),
            )
        } else if s.len() == 4 {
            Some((hex_digit(s[1])->0, hex_digit(s[2])->0, hex_digit(s[3])->0))
        } else {
            None
        }
    } else {
        None
    }
}

fn hex_digit_exec(b: u8) -> (r: Option<u8>)
    ensures
        r == hex_digit(b),
{
    if 0x30 <= b && b <= 0x39 {
        Some(b - 0x30)
    } else if 0x61 <= b && b <= 0x66 {
        Some(b - 0x61 + 10)
    } else if 0x41 <= b && b <= 0x46 {
        Some(b - 0x41 + 10)
    } else {
        None
    }
}

fn hex_pair(hi: u8, lo: u8) -> (r: u8)
    requires
        hex_digit(hi) is Some,
        hex_digit(lo) is Some,
    ensures
        r == (hex_digit(hi)->0 * 16 + hex_digit(lo)->0) as u8,
{
    let h = hex_digit_exec(hi).unwrap();
    let l = hex_digit_exec(lo).unwrap();
    h * 16 + l
}

impl Color {
    /// The colour that the web-colour text `s` names, if it names one; the
    /// text is read as its UTF-8 bytes.
    pub fn parse_web(s: &str) -> (r: Option<Color>)
        ensures
            r == (match web_color_of(s.spec_bytes()) {
                Some((red, green, blue)) => Some(Color::WebColor(red, green, blue)),
                None => None::<Color>,
            }),
    {
        let b = s.as_bytes();
        assert(b@ == s.spec_bytes());
        if b.len() < 1 || b[0] != 0x23 {
            return None;
        }
        let mut i: usize = 1;
        while i < b.len()
            invariant
                1 <= i <= b@.len(),
                b@ == s.spec_bytes(),
                b@[0] == 0x23,
                forall|j: int| 1 <= j < i ==> (#[trigger] hex_digit(b@[j])) is Some,
            decreases b@.len() - i,
        {
            if hex_digit_exec(b[i]).is_none() {
                assert(!all_hex(b@, 1)) by {
                    assert(hex_digit(b@[i as int]) is None);
                }
                return None;
            }
            i = i + 1;
        }
        assert(all_hex(b@, 1));
        if b.len() == 7 {
            Some(Color::WebColor(hex_pair(b[1], b[2]), hex_pair(b[3], b[4]), hex_pair(b[5], b[6])))
        } else if b.len() == 4 {
            assert(hex_digit(b@[1]) is Some && hex_digit(b@[2]) is Some && hex_digit(b@[3]) is Some);
            Some(
                Color::WebColor(
                    hex_digit_exec(b[1]).unwrap(),
                    hex_digit_exec(b[2]).unwrap(),
                    hex_digit_exec(b[3]).unwrap(),
                ),
            )
        } else {
            None
        }
    }
}

} // verus!
