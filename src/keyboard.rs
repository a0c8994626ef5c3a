use vstd::prelude::*;

verus! {

/// A key as the renderer reports it, logical or physical.
#[derive(Clone, Copy, Debug, PartialEq, Eq, Structural)]
pub enum Key {
    Space, Delete, Backspace, Insert, Tab, Enter, Escape, Home,
    ArrowLeft, ArrowUp, ArrowRight, ArrowDown, PageUp, PageDown, End,
    F1, F2, F3, F4, F5, F6, F7, F8, F9, F10, F11, F12,
    F13, F14, F15, F16, F17, F18, F19, F20, F21, F22, F23, F24,
    F25, F26, F27, F28, F29, F30, F31, F32, F33, F34, F35,
    Colon, Comma, Backslash, Slash, Pipe, Backtick,
    OpenBracket, CloseBracket, OpenCurlyBracket, CloseCurlyBracket,
    Equals, Exclamationmark, Copy, Cut, Paste,
    Period, Minus, Plus, Quote, Questionmark, Semicolon,
    A, B, C, D, E, F, G, H, I, J, K, L, M,
    N, O, P, Q, R, S, T, U, V, W, X, Y, Z,
    Num0, Num1, Num2, Num3, Num4, Num5, Num6, Num7, Num8, Num9,
}

/// The modifier keys held while a key event happened.
#[derive(Clone, Copy, Debug, PartialEq, Eq, Structural)]
pub struct Modifiers {
    pub alt: bool,
    pub shift: bool,
    pub ctrl: bool,
}

/// A raw key event from the renderer.
#[derive(Clone, Copy, Debug, PartialEq, Eq, Structural)]
pub struct KeyEvent {
    pub key: Key,
    pub physical_key: Option<Key>,
    pub pressed: bool,
    pub modifiers: Modifiers,
}

/// One physical key transition in the remote's keyboard protocol.
#[derive(Clone, Copy, Debug, PartialEq, Eq, Structural)]
pub struct ScancodeEvent {
    pub extended: bool,
    pub released: bool,
    pub code: u8,
}

/// The key has no device scancode.
#[derive(Clone, Copy, Debug, PartialEq, Eq, Structural)]
pub struct UnmappedKey {
    pub key: Key,
}

pub const SCANCODE_MODIFIER_ALT: u8 = 0x38;
pub const SCANCODE_MODIFIER_CTRL: u8 = 0x1d;
pub const SCANCODE_MODIFIER_SHIFT: u8 = 0x2a;

/// The translation table: whether the code needs the extended prefix, and the code.
pub open spec fn key_code(key: Key) -> Option<(bool, u8)> {
    match key {
        Key::Space => Some((false, 0x39u8)),
        Key::Delete => Some((false, 0xd3u8)),
        Key::Backspace => Some((false, 0x0eu8)),
        Key::Insert => Some((true, 0x52u8)),
        Key::Tab => Some((false, 0x0fu8)),
        Key::Enter => Some((false, 0x1cu8)),
        Key::Escape => Some((false, 0x01u8)),
        Key::Home => Some((true, 0x47u8)),
        Key::ArrowLeft => Some((true, 0x4bu8)),
        Key::ArrowUp => Some((true, 0x48u8)),
        Key::ArrowRight => Some((true, 0x4du8)),
        Key::ArrowDown => Some((true, 0x50u8)),
        Key::PageUp => Some((true, 0x49u8)),
        Key::PageDown => Some((true, 0x51u8)),
        Key::End => Some((true, 0x4fu8)),
        Key::F1 => Some((false, 0x3bu8)),
        Key::F2 => Some((false, 0x3cu8)),
        Key::F3 => Some((false, 0x3du8)),
        Key::F4 => Some((false, 0x3eu8)),
        Key::F5 => Some((false, 0x3fu8)),
        Key::F6 => Some((false, 0x40u8)),
        Key::F7 => Some((false, 0x41u8)),
        Key::F8 => Some((false, 0x42u8)),
        Key::F9 => Some((false, 0x43u8)),
        Key::F10 => Some((false, 0x44u8)),
        Key::F11 => Some((false, 0x57u8)),
        Key::F12 => Some((false, 0x58u8)),
        Key::F13 => Some((false, 0x64u8)),
        Key::F14 => Some((false, 0x65u8)),
        Key::F15 => Some((false, 0x66u8)),
        Key::F16 => Some((false, 0x67u8)),
        Key::F17 => Some((false, 0x68u8)),
        Key::F18 => Some((false, 0x69u8)),
        Key::F19 => Some((false, 0x6au8)),
        Key::F20 => Some((false, 0x6bu8)),
        Key::F21 => Some((false, 0x6cu8)),
        Key::F22 => Some((false, 0x6du8)),
        Key::F23 => Some((false, 0x6eu8)),
        Key::F24 => Some((false, 0x76u8)),
        Key::Colon => Some((false, 0x27u8)),
        Key::Comma => Some((false, 0x33u8)),
        Key::Backslash => Some((false, 0x2bu8)),
        Key::Slash => Some((false, 0x35u8)),
        Key::Pipe => Some((false, 0x35u8)),
        Key::Backtick => Some((false, 0x29u8)),
        Key::OpenBracket => Some((false, 0x1au8)),
        Key::CloseBracket => Some((false, 0x1bu8)),
        Key::OpenCurlyBracket => Some((false, 0x1au8)),
        Key::CloseCurlyBracket => Some((false, 0x1bu8)),
        Key::Equals => Some((false, 0x0du8)),
        Key::Exclamationmark => Some((false, 0x02u8)),
        Key::Period => Some((false, 0x34u8)),
        Key::Minus => Some((false, 0x0cu8)),
        Key::Plus => Some((false, 0x4eu8)),
        Key::Quote => Some((false, 0x28u8)),
        Key::Questionmark => Some((false, 0x35u8)),
        Key::Semicolon => Some((false, 0x27u8)),
        Key::A => Some((false, 0x1eu8)),
        Key::B => Some((false, 0x30u8)),
        Key::C => Some((false, 0x2eu8)),
        Key::D => Some((false, 0x20u8)),
        Key::E => Some((false, 0x12u8)),
        Key::F => Some((false, 0x21u8)),
        Key::G => Some((false, 0x22u8)),
        Key::H => Some((false, 0x23u8)),
        Key::I => Some((false, 0x17u8)),
        Key::J => Some((false, 0x24u8)),
        Key::K => Some((false, 0x25u8)),
        Key::L => Some((false, 0x26u8)),
        Key::M => Some((false, 0x32u8)),
        Key::N => Some((false, 0x31u8)),
        Key::O => Some((false, 0x18u8)),
        Key::P => Some((false, 0x19u8)),
        Key::Q => Some((false, 0x10u8)),
        Key::R => Some((false, 0x13u8)),
        Key::S => Some((false, 0x1fu8)),
        Key::T => Some((false, 0x14u8)),
        Key::U => Some((false, 0x16u8)),
        Key::V => Some((false, 0x2fu8)),
        Key::W => Some((false, 0x11u8)),
        Key::X => Some((false, 0x2du8)),
        Key::Y => Some((false, 0x15u8)),
        Key::Z => Some((false, 0x2cu8)),
        Key::Num0 => Some((false, 0x0bu8)),
        Key::Num1 => Some((false, 0x02u8)),
        Key::Num2 => Some((false, 0x03u8)),
        Key::Num3 => Some((false, 0x04u8)),
        Key::Num4 => Some((false, 0x05u8)),
        Key::Num5 => Some((false, 0x06u8)),
        Key::Num6 => Some((false, 0x07u8)),
        Key::Num7 => Some((false, 0x08u8)),
        Key::Num8 => Some((false, 0x09u8)),
        Key::Num9 => Some((false, 0x0au8)),
        _ => None,
    }
}

/// Looks up the device scancode of `key`: whether it needs the extended prefix,
/// and the code. Keys without a device mapping are refused.
pub fn get_scancode(key: &Key) -> (r: Result<(bool, u8), UnmappedKey>)
    ensures
        match key_code(*key) {
            Some(c) => r == Ok::<(bool, u8), UnmappedKey>(c),
            None => r == Err::<(bool, u8), UnmappedKey>(UnmappedKey { key: *key }),
        },
{
    let c: (bool, u8) = match key {
        Key::Space => (false, 0x39),
        Key::Delete => (false, 0xd3),
        Key::Backspace => (false, 0x0e),
        Key::Insert => (true, 0x52),
        Key::Tab => (false, 0x0f),
        Key::Enter => (false, 0x1c),
        Key::Escape => (false, 0x01),
        Key::Home => (true, 0x47),
        Key::ArrowLeft => (true, 0x4b),
        Key::ArrowUp => (true, 0x48),
        Key::ArrowRight => (true, 0x4d),
        Key::ArrowDown => (true, 0x50),
        Key::PageUp => (true, 0x49),
        Key::PageDown => (true, 0x51),
        Key::End => (true, 0x4f),
        Key::F1 => (false, 0x3b),
        Key::F2 => (false, 0x3c),
        Key::F3 => (false, 0x3d),
        Key::F4 => (false, 0x3e),
        Key::F5 => (false, 0x3f),
        Key::F6 => (false, 0x40),
        Key::F7 => (false, 0x41),
        Key::F8 => (false, 0x42),
        Key::F9 => (false, 0x43),
        Key::F10 => (false, 0x44),
        Key::F11 => (false, 0x57),
        Key::F12 => (false, 0x58),
        Key::F13 => (false, 0x64),
        Key::F14 => (false, 0x65),
        Key::F15 => (false, 0x66),
        Key::F16 => (false, 0x67),
        Key::F17 => (false, 0x68),
        Key::F18 => (false, 0x69),
        Key::F19 => (false, 0x6a),
        Key::F20 => (false, 0x6b),
        Key::F21 => (false, 0x6c),
        Key::F22 => (false, 0x6d),
        Key::F23 => (false, 0x6e),
        Key::F24 => (false, 0x76),
        Key::Colon => (false, 0x27),
        Key::Comma => (false, 0x33),
        Key::Backslash => (false, 0x2b),
        Key::Slash => (false, 0x35),
        Key::Pipe => (false, 0x35),
        Key::Backtick => (false, 0x29),
        Key::OpenBracket => (false, 0x1a),
        Key::CloseBracket => (false, 0x1b),
        Key::OpenCurlyBracket => (false, 0x1a),
        Key::CloseCurlyBracket => (false, 0x1b),
        Key::Equals => (false, 0x0d),
        Key::Exclamationmark => (false, 0x02),
        Key::Period => (false, 0x34),
        Key::Minus => (false, 0x0c),
        Key::Plus => (false, 0x4e),
        Key::Quote => (false, 0x28),
        Key::Questionmark => (false, 0x35),
        Key::Semicolon => (false, 0x27),
        Key::A => (false, 0x1e),
        Key::B => (false, 0x30),
        Key::C => (false, 0x2e),
        Key::D => (false, 0x20),
        Key::E => (false, 0x12),
        Key::F => (false, 0x21),
        Key::G => (false, 0x22),
        Key::H => (false, 0x23),
        Key::I => (false, 0x17),
        Key::J => (false, 0x24),
        Key::K => (false, 0x25),
        Key::L => (false, 0x26),
        Key::M => (false, 0x32),
        Key::N => (false, 0x31),
        Key::O => (false, 0x18),
        Key::P => (false, 0x19),
        Key::Q => (false, 0x10),
        Key::R => (false, 0x13),
        Key::S => (false, 0x1f),
        Key::T => (false, 0x14),
        Key::U => (false, 0x16),
        Key::V => (false, 0x2f),
        Key::W => (false, 0x11),
        Key::X => (false, 0x2d),
        Key::Y => (false, 0x15),
        Key::Z => (false, 0x2c),
        Key::Num0 => (false, 0x0b),
        Key::Num1 => (false, 0x02),
        Key::Num2 => (false, 0x03),
        Key::Num3 => (false, 0x04),
        Key::Num4 => (false, 0x05),
        Key::Num5 => (false, 0x06),
        Key::Num6 => (false, 0x07),
        Key::Num7 => (false, 0x08),
        Key::Num8 => (false, 0x09),
        Key::Num9 => (false, 0x0a),
        Key::Copy | Key::Cut | Key::Paste | Key::F25 | Key::F26 | Key::F27 | Key::F28
        | Key::F29 | Key::F30 | Key::F31 | Key::F32 | Key::F33 | Key::F34 | Key::F35 => {
            return Err(UnmappedKey { key: *key });
        },
    };
    Ok(c)
}

/// The key whose scancode an event sends: the physical key when it is known,
/// else the logical one.
pub open spec fn effective_key(e: KeyEvent) -> Key {
    match e.physical_key {
        Some(k) => k,
        None => e.key,
    }
}

pub open spec fn modifier_event(code: u8, released: bool) -> ScancodeEvent {
    ScancodeEvent { extended: false, released, code }
}

/// The companion events of the held modifiers, in the order alt, shift, ctrl.
pub open spec fn modifier_events(m: Modifiers, released: bool) -> Seq<ScancodeEvent> {
    (if m.alt { seq![modifier_event(SCANCODE_MODIFIER_ALT, released)] } else { Seq::empty() })
        + (if m.shift { seq![modifier_event(SCANCODE_MODIFIER_SHIFT, released)] } else { Seq::empty() })
        + (if m.ctrl { seq![modifier_event(SCANCODE_MODIFIER_CTRL, released)] } else { Seq::empty() })
}

/// What a key event translates to: nothing for an unmapped key; else, on a
/// press the modifiers then the key, on a release the key then the modifiers.
pub open spec fn translate(e: KeyEvent) -> Option<Seq<ScancodeEvent>> {
    match key_code(effective_key(e)) {
        None => None,
        Some((extended, code)) => {
            let released = !e.pressed;
            let main = ScancodeEvent { extended, released, code };
            let mods = modifier_events(e.modifiers, released);
            if e.pressed {
                Some(mods.push(main))
            } else {
                Some(seq![main] + mods)
            }
        },
    }
}

fn push_modifiers(v: &mut Vec<ScancodeEvent>, m: Modifiers, released: bool)
    ensures
        final(v)@ == old(v)@ + modifier_events(m, released),
{
    let ghost start = v@;
    if m.alt {
        v.push(ScancodeEvent { extended: false, released, code: SCANCODE_MODIFIER_ALT });
    }
    let ghost after_alt = v@;
    if m.shift {
        v.push(ScancodeEvent { extended: false, released, code: SCANCODE_MODIFIER_SHIFT });
    }
    let ghost after_shift = v@;
    if m.ctrl {
        v.push(ScancodeEvent { extended: false, released, code: SCANCODE_MODIFIER_CTRL });
    }
    proof {
        let a = if m.alt { seq![modifier_event(SCANCODE_MODIFIER_ALT, released)] } else { Seq::<ScancodeEvent>::empty() };
        let s = if m.shift { seq![modifier_event(SCANCODE_MODIFIER_SHIFT, released)] } else { Seq::<ScancodeEvent>::empty() };
        let c = if m.ctrl { seq![modifier_event(SCANCODE_MODIFIER_CTRL, released)] } else { Seq::<ScancodeEvent>::empty() };
        assert(after_alt =~= start + a);
        assert(after_shift =~= start + a + s);
        assert(v@ =~= start + a + s + c);
        assert(start + (a + s + c) =~= start + a + s + c);
    }
}

/// The scancode events that one key event translates to.
pub struct RDPKeyboardEvents {
    fastpath_events: Vec<ScancodeEvent>,
}

impl View for RDPKeyboardEvents {
    type V = Seq<ScancodeEvent>;

    closed spec fn view(&self) -> Seq<ScancodeEvent> {
        self.fastpath_events@
    }
}

impl RDPKeyboardEvents {
    /// Translates a key event; `None` where its key has no device scancode.
    /// Every held modifier is sent again with each keystroke.
    pub fn maybe_from(event: &KeyEvent) -> (r: Option<RDPKeyboardEvents>)
        ensures
            match translate(*event) {
                None => r.is_none(),
                Some(s) => r.is_some() && r.unwrap()@ == s,
            },
    {
        let key = match event.physical_key {
            Some(k) => k,
            None => event.key,
        };
        let (extended, code) = match get_scancode(&key) {
            Ok(c) => c,
            Err(_) => {
                return None;
            },
        };
        let released = !event.pressed;
        let main = ScancodeEvent { extended, released, code };
        let mut fastpath_events: Vec<ScancodeEvent> = Vec::new();
        if event.pressed {
            push_modifiers(&mut fastpath_events, event.modifiers, released);
            fastpath_events.push(main);
        } else {
            fastpath_events.push(main);
            push_modifiers(&mut fastpath_events, event.modifiers, released);
        }
        proof {
            if event.pressed {
                assert(fastpath_events@ =~= modifier_events(event.modifiers, released).push(main));
            } else {
                assert(fastpath_events@ =~= seq![main] + modifier_events(event.modifiers, released));
            }
        }
        Some(RDPKeyboardEvents { fastpath_events })
    }

    /// Hands out the events in the order they are to be sent.
    pub fn as_fastpath_events(self) -> (r: Vec<ScancodeEvent>)
        ensures
            r@ == self@,
    {
        self.fastpath_events
    }
}

/// A key in the table always translates to an event carrying the table's
/// `(extended, code)` pair, whatever else the event holds; a key outside the
/// table translates to nothing.
pub proof fn lemma_translation_follows_table(e: KeyEvent)
    ensures
        translate(e) is None <==> key_code(effective_key(e)) is None,
        key_code(effective_key(e)) matches Some((extended, code)) ==> ({
            let s = translate(e).unwrap();
            let main = ScancodeEvent { extended, released: !e.pressed, code };
            &&& s.contains(main)
            &&& (if e.pressed { s.last() == main } else { s[0] == main })
        }),
{
    if let Some((extended, code)) = key_code(effective_key(e)) {
        let s = translate(e).unwrap();
        let main = ScancodeEvent { extended, released: !e.pressed, code };
        if e.pressed {
            assert(s[s.len() - 1] == main);
        } else {
            assert(s[0] == main);
        }
    }
}

/// A mapped key pressed and then released with no modifier held gives one
/// event each time, the two differing only in the release bit.
pub proof fn lemma_unmodified_press_release(press: KeyEvent, release: KeyEvent)
    requires
        press.key == release.key,
        press.physical_key == release.physical_key,
        press.pressed,
        !release.pressed,
        !press.modifiers.alt && !press.modifiers.shift && !press.modifiers.ctrl,
        !release.modifiers.alt && !release.modifiers.shift && !release.modifiers.ctrl,
        key_code(effective_key(press)) is Some,
    ensures
        ({
            let p = translate(press).unwrap();
            let r = translate(release).unwrap();
            &&& p.len() == 1
            &&& r.len() == 1
            &&& !p[0].released
            &&& r[0] == (ScancodeEvent { released: true, ..p[0] })
        }),
{
    let p = translate(press).unwrap();
    let r = translate(release).unwrap();
    assert(modifier_events(press.modifiers, false) =~= Seq::empty());
    assert(modifier_events(release.modifiers, true) =~= Seq::empty());
    assert(p =~= seq![p[0]]);
    assert(r =~= seq![r[0]]);
}

/// With one modifier held, releasing a key unwinds its press: the release
/// events are the press events in reverse order, each with the release bit set.
pub proof fn lemma_release_reverses_press(press: KeyEvent, release: KeyEvent)
    requires
        press.key == release.key,
        press.physical_key == release.physical_key,
        press.modifiers == release.modifiers,
        press.pressed,
        !release.pressed,
        (press.modifiers.alt as int) + (press.modifiers.shift as int) + (press.modifiers.ctrl as int)
            <= 1,
        key_code(effective_key(press)) is Some,
    ensures
        ({
            let p = translate(press).unwrap();
            let r = translate(release).unwrap();
            &&& r.len() == p.len()
            &&& forall|i: int|
                0 <= i < p.len() ==> !p[i].released && #[trigger] r[i] == (ScancodeEvent {
                    released: true,
                    ..p[p.len() - 1 - i]
                })
        }),
{
    let p = translate(press).unwrap();
    let r = translate(release).unwrap();
    let m = press.modifiers;
    if m.alt {
        assert(modifier_events(m, false) =~= seq![modifier_event(SCANCODE_MODIFIER_ALT, false)]);
        assert(modifier_events(m, true) =~= seq![modifier_event(SCANCODE_MODIFIER_ALT, true)]);
    } else if m.shift {
        assert(modifier_events(m, false) =~= seq![modifier_event(SCANCODE_MODIFIER_SHIFT, false)]);
        assert(modifier_events(m, true) =~= seq![modifier_event(SCANCODE_MODIFIER_SHIFT, true)]);
    } else if m.ctrl {
        assert(modifier_events(m, false) =~= seq![modifier_event(SCANCODE_MODIFIER_CTRL, false)]);
        assert(modifier_events(m, true) =~= seq![modifier_event(SCANCODE_MODIFIER_CTRL, true)]);
    } else {
        assert(modifier_events(m, false) =~= Seq::empty());
        assert(modifier_events(m, true) =~= Seq::empty());
    }
}

} // verus!
