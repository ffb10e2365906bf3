//! Keystrokes: one key together with the modifiers held with it.

use vstd::prelude::*;

verus! {

/// A key of the keyboard.
#[derive(Clone, Copy, Debug, PartialEq, Eq, Structural)]
pub enum Key {
    A,
    B,
    C,
    D,
    E,
    F,
    G,
    H,
    I,
    J,
    K,
    L,
    M,
    N,
    O,
    P,
    Q,
    R,
    S,
    T,
    U,
    V,
    W,
    X,
    Y,
    Z,
    Number0,
    Number1,
    Number2,
    Number3,
    Number4,
    Number5,
    Number6,
    Number7,
    Number8,
    Number9,
    Enter,
    Escape,
    Backspace,
    Tab,
    Space,
    Delete,
    ArrowUp,
    ArrowDown,
    ArrowLeft,
    ArrowRight,
}

/// What a stroke holds.
pub ghost struct StrokeView {
    pub key: Option<Key>,
    pub ctrl: bool,
    pub shift: bool,
    pub meta: bool,
    pub alt: bool,
}

/// A keystroke under construction: at most one key and four modifiers.
pub struct Stroke {
    key: Option<Key>,
    ctrl: bool,
    shift: bool,
    meta: bool,
    alt: bool,
}

impl View for Stroke {
    type V = StrokeView;

    closed spec fn view(&self) -> StrokeView {
        StrokeView {
            key: self.key,
            ctrl: self.ctrl,
            shift: self.shift,
            meta: self.meta,
            alt: self.alt,
        }
    }
}

/// The stroke without a key and without modifiers.
pub open spec fn blank() -> StrokeView {
    StrokeView { key: None, ctrl: false, shift: false, meta: false, alt: false }
}

impl Stroke {
    /// A stroke without a key and without modifiers.
    pub fn new() -> (s: Self)
        ensures
            s@ == blank(),
    {
        Self { key: None, ctrl: false, shift: false, meta: false, alt: false }
    }

    /// Sets the key, replacing an earlier one.
    pub fn set_key(&mut self, key: Key)
        ensures
            final(self)@ == (StrokeView { key: Some(key), ..old(self)@ }),
    {
        self.key = Some(key);
    }

    /// Sets or clears the control modifier.
    pub fn set_ctrl(&mut self, ctrl: bool)
        ensures
            final(self)@ == (StrokeView { ctrl: ctrl, ..old(self)@ }),
    {
        self.ctrl = ctrl;
    }

    /// Sets or clears the shift modifier.
    pub fn set_shift(&mut self, shift: bool)
        ensures
            final(self)@ == (StrokeView { shift: shift, ..old(self)@ }),
    {
        self.shift = shift;
    }

    /// Sets or clears the meta modifier.
    pub fn set_meta(&mut self, meta: bool)
        ensures
            final(self)@ == (StrokeView { meta: meta, ..old(self)@ }),
    {
        self.meta = meta;
    }

    /// Sets or clears the alt modifier.
    pub fn set_alt(&mut self, alt: bool)
        ensures
            final(self)@ == (StrokeView { alt: alt, ..old(self)@ }),
    {
        self.alt = alt;
    }

    /// Removes the key and all modifiers.
    pub fn clear(&mut self)
        ensures
            final(self)@ == blank(),
    {
        self.key = None;
        self.ctrl = false;
        self.shift = false;
        self.meta = false;
        self.alt = false;
    }

    /// The key, if one is set.
    pub fn get_key(&self) -> (key: &Option<Key>)
        ensures
            *key == self@.key,
    {
        &self.key
    }

    /// Whether the control modifier is set.
    pub fn get_ctrl(&self) -> (ctrl: bool)
        ensures
            ctrl == self@.ctrl,
    {
        self.ctrl
    }

    /// Whether the shift modifier is set.
    pub fn get_shift(&self) -> (shift: bool)
        ensures
            shift == self@.shift,
    {
        self.shift
    }

    /// Whether the meta modifier is set.
    pub fn get_meta(&self) -> (meta: bool)
        ensures
            meta == self@.meta,
    {
        self.meta
    }

    /// Whether the alt modifier is set.
    pub fn get_alt(&self) -> (alt: bool)
        ensures
            alt == self@.alt,
    {
        self.alt
    }
}

} // verus!
