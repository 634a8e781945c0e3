//! Event payloads, their runtime identity, and the erased view of a payload.
use vstd::prelude::*;
use winit::event::{DeviceId, WindowEvent};
use winit::keyboard::KeyCode;
use winit::window::WindowId;

verus! {

/// Runtime identity of a payload kind: the key under which listener chains are kept.
#[derive(Debug, Clone, Copy, PartialEq, Eq, Hash, Structural)]
pub enum EventKind {
    KeyPressed,
    KeyReleased,
    MouseMove,
    MouseButtonPressed,
    MouseButtonReleased,
    WindowResize,
    WindowClose,
    WindowRedrawRequested,
    WindowRaw,
}

/// How many payload kinds there are.
pub const KIND_COUNT: usize = 9;

/// Every payload kind, in the order of `EventKind::index`.
pub open spec fn all_kinds() -> Seq<EventKind> {
    seq![
        EventKind::KeyPressed,
        EventKind::KeyReleased,
        EventKind::MouseMove,
        EventKind::MouseButtonPressed,
        EventKind::MouseButtonReleased,
        EventKind::WindowResize,
        EventKind::WindowClose,
        EventKind::WindowRedrawRequested,
        EventKind::WindowRaw,
    ]
}

impl EventKind {
    pub open spec fn index_spec(self) -> int {
        match self {
            EventKind::KeyPressed => 0,
            EventKind::KeyReleased => 1,
            EventKind::MouseMove => 2,
            EventKind::MouseButtonPressed => 3,
            EventKind::MouseButtonReleased => 4,
            EventKind::WindowResize => 5,
            EventKind::WindowClose => 6,
            EventKind::WindowRedrawRequested => 7,
            EventKind::WindowRaw => 8,
        }
    }

    /// The kind's position in `all_kinds()`.
    pub fn index(&self) -> (r: usize)
        ensures
            r as int == self.index_spec(),
            r < KIND_COUNT,
            all_kinds()[r as int] == *self,
    {
        match self {
            EventKind::KeyPressed => 0,
            EventKind::KeyReleased => 1,
            EventKind::MouseMove => 2,
            EventKind::MouseButtonPressed => 3,
            EventKind::MouseButtonReleased => 4,
            EventKind::WindowResize => 5,
            EventKind::WindowClose => 6,
            EventKind::WindowRedrawRequested => 7,
            EventKind::WindowRaw => 8,
        }
    }

    /// The kind at position `i` of `all_kinds()`.
    pub fn from_index(i: usize) -> (k: EventKind)
        requires
            i < KIND_COUNT,
        ensures
            k == all_kinds()[i as int],
            k.index_spec() == i as int,
    {
        if i == 0 {
            EventKind::KeyPressed
        } else if i == 1 {
            EventKind::KeyReleased
        } else if i == 2 {
            EventKind::MouseMove
        } else if i == 3 {
            EventKind::MouseButtonPressed
        } else if i == 4 {
            EventKind::MouseButtonReleased
        } else if i == 5 {
            EventKind::WindowResize
        } else if i == 6 {
            EventKind::WindowClose
        } else if i == 7 {
            EventKind::WindowRedrawRequested
        } else {
            EventKind::WindowRaw
        }
    }
}

/// Coarse classification of events, each a distinct bit.
#[derive(Debug, Clone, Copy, PartialEq, Eq, Structural)]
pub enum EventCategory {
    NoCategory,
    ApplicationCategory,
    InputCategory,
    KeyboardCategory,
    MouseCategory,
    MouseButtonCategory,
    UserCategory,
}

impl EventCategory {
    pub open spec fn bits_spec(self) -> u32 {
        match self {
            EventCategory::NoCategory => 0,
            EventCategory::ApplicationCategory => 1,
            EventCategory::InputCategory => 2,
            EventCategory::KeyboardCategory => 4,
            EventCategory::MouseCategory => 8,
            EventCategory::MouseButtonCategory => 16,
            EventCategory::UserCategory => 32,
        }
    }

    /// The category's flag: no bit for `NoCategory`, one bit of its own for each other.
    pub fn bits(&self) -> (r: u32)
        ensures
            r == self.bits_spec(),
    {
        match self {
            EventCategory::NoCategory => 0,
            EventCategory::ApplicationCategory => 1,
            EventCategory::InputCategory => 2,
            EventCategory::KeyboardCategory => 4,
            EventCategory::MouseCategory => 8,
            EventCategory::MouseButtonCategory => 16,
            EventCategory::UserCategory => 32,
        }
    }
}

/// A pointer button, as the platform names it.
#[derive(Debug, Clone, Copy, PartialEq, Eq, Structural)]
pub enum MouseButton {
    Left,
    Right,
    Middle,
    Back,
    Forward,
    Other(u16),
}

// ---------------------------------------------------------------------------
// Text of payloads
pub open spec fn digit_char(d: nat) -> char {
    if d == 0 {
        '0'
    } else if d == 1 {
        '1'
    } else if d == 2 {
        '2'
    } else if d == 3 {
        '3'
    } else if d == 4 {
        '4'
    } else if d == 5 {
        '5'
    } else if d == 6 {
        '6'
    } else if d == 7 {
        '7'
    } else if d == 8 {
        '8'
    } else {
        '9'
    }
}

/// Decimal notation of `n`, without leading zeros.
pub open spec fn decimal(n: nat) -> Seq<char>
    decreases n,
{
    if n < 10 {
        seq![digit_char(n)]
    } else {
        decimal(n / 10) + seq![digit_char(n % 10)]
    }
}

fn digit_str(d: u32) -> (r: &'static str)
    requires
        d < 10,
    ensures
        r@ == seq![digit_char(d as nat)],
{
    proof {
        reveal_strlit("0");
        reveal_strlit("1");
        reveal_strlit("2");
        reveal_strlit("3");
        reveal_strlit("4");
        reveal_strlit("5");
        reveal_strlit("6");
        reveal_strlit("7");
        reveal_strlit("8");
        reveal_strlit("9");
    }
    if d == 0 {
        "0"
    } else if d == 1 {
        "1"
    } else if d == 2 {
        "2"
    } else if d == 3 {
        "3"
    } else if d == 4 {
        "4"
    } else if d == 5 {
        "5"
    } else if d == 6 {
        "6"
    } else if d == 7 {
        "7"
    } else if d == 8 {
        "8"
    } else {
        "9"
    }
}

/// Decimal text of `n`.
pub fn decimal_text(n: u32) -> (r: String)
    ensures
        r@ == decimal(n as nat),
    decreases n,
{
    if n < 10 {
        String::from_str(digit_str(n))
    } else {
        let mut s = decimal_text(n / 10);
        s.append(digit_str(n % 10));
        s
    }
}

pub open spec fn button_text(b: MouseButton) -> Seq<char> {
    match b {
        MouseButton::Left => "left"@,
        MouseButton::Right => "right"@,
        MouseButton::Forward => "forward"@,
        MouseButton::Back => "back"@,
        MouseButton::Middle => "middle"@,
        MouseButton::Other(v) => "button "@ + decimal(v as nat),
    }
}

/// The button's lower-case name, or "button N" for a numbered one.
pub fn mouse_button_to_string(button: &MouseButton) -> (r: String)
    ensures
        r@ == button_text(*button),
{
    match button {
        MouseButton::Left => String::from_str("left"),
        MouseButton::Right => String::from_str("right"),
        MouseButton::Forward => String::from_str("forward"),
        MouseButton::Back => String::from_str("back"),
        MouseButton::Middle => String::from_str("middle"),
        MouseButton::Other(val) => {
            let s = String::from_str("button ");
            let digits = decimal_text(*val as u32);
            s.concat(digits.as_str())
        },
    }
}

/// The name that winit's derived `Debug` gives a key code.
pub uninterp spec fn key_code_text(k: KeyCode) -> Seq<char>;

/// Relies on the `Debug` impl that winit derives for `KeyCode`: the text depends on the key
/// code alone.
#[verifier::external_body]
fn key_code_name(k: &KeyCode) -> (r: String)
    ensures
        r@ == key_code_text(*k),
{
    format!("{:?}", k)
}

pub open spec fn key_event_text(name: Seq<char>, key: Seq<char>) -> Seq<char> {
    "Event "@ + name + ", keycode: "@ + key
}

/// Text of a key payload called `name` whose key code reads `key_name`.
pub fn describe_key_event(name: &str, key_name: &str) -> (r: String)
    ensures
        r@ == key_event_text(name@, key_name@),
{
    String::from_str("Event ").concat(name).concat(", keycode: ").concat(key_name)
}

pub open spec fn button_event_text(name: Seq<char>, b: MouseButton) -> Seq<char> {
    name + ": button - "@ + button_text(b) + ", "@
}

fn describe_button_event(name: &String, b: &MouseButton) -> (r: String)
    ensures
        r@ == button_event_text(name@, *b),
{
    let t = mouse_button_to_string(b);
    name.clone().concat(": button - ").concat(t.as_str()).concat(", ")
}

pub open spec fn resize_text(name: Seq<char>, width: u32, height: u32) -> Seq<char> {
    name + ": width - "@ + decimal(width as nat) + ", height - "@ + decimal(height as nat)
}

// ---------------------------------------------------------------------------
// Payloads
/// A key went down.
pub struct KeyPressedEvent {
    pub name: String,
    pub keycode: KeyCode,
    pub repeat: bool,
    pub is_handled: bool,
}

/// A key went up.
pub struct KeyReleasedEvent {
    pub name: String,
    pub keycode: KeyCode,
    pub is_handled: bool,
}

/// The pointer moved. The coordinates are kept as the IEEE-754 bit patterns of the platform's
/// 64-bit floating-point position (`f64::to_bits`); the library never computes with them.
pub struct MouseMoveEvent {
    pub name: String,
    pub x_bits: u64,
    pub y_bits: u64,
    pub is_handled: bool,
    pub device_id: DeviceId,
}

/// A pointer button went down.
pub struct MouseButtonPressedEvent {
    pub name: String,
    pub is_handled: bool,
    pub device_id: DeviceId,
    pub button: MouseButton,
}

/// A pointer button went up.
pub struct MouseButtonReleasedEvent {
    pub name: String,
    pub is_handled: bool,
    pub device_id: DeviceId,
    pub button: MouseButton,
}

/// The window was asked to close.
pub struct WindowCloseEvent {
    pub name: String,
    pub window_id: WindowId,
    pub is_handled: bool,
}

/// The window's inner size changed, in physical pixels.
pub struct WindowResizeEvent {
    pub name: String,
    pub window_id: WindowId,
    pub width: u32,
    pub height: u32,
    pub is_handled: bool,
}

/// A new frame is due.
pub struct WindowRedrawRequestedEvent {
    pub name: String,
    pub window_id: WindowId,
    pub is_handled: bool,
}

impl KeyPressedEvent {
    pub fn get_keycode(&self) -> (r: KeyCode)
        ensures
            r == self.keycode,
    {
        self.keycode
    }

    pub fn get_repeat(&self) -> (r: bool)
        ensures
            r == self.repeat,
    {
        self.repeat
    }
}

impl KeyReleasedEvent {
    pub fn get_keycode(&self) -> (r: KeyCode)
        ensures
            r == self.keycode,
    {
        self.keycode
    }
}

impl MouseMoveEvent {
    pub fn get_device_id(&self) -> (r: &DeviceId)
        ensures
            *r == self.device_id,
    {
        &self.device_id
    }

    /// The position's bit patterns, x first.
    pub fn get_pos_bits(&self) -> (r: (u64, u64))
        ensures
            r == (self.x_bits, self.y_bits),
    {
        (self.x_bits, self.y_bits)
    }
}

impl MouseButtonPressedEvent {
    pub fn get_device_id(&self) -> (r: &DeviceId)
        ensures
            *r == self.device_id,
    {
        &self.device_id
    }

    pub fn get_button(&self) -> (r: &MouseButton)
        ensures
            *r == self.button,
    {
        &self.button
    }
}

impl MouseButtonReleasedEvent {
    pub fn get_device_id(&self) -> (r: &DeviceId)
        ensures
            *r == self.device_id,
    {
        &self.device_id
    }

    pub fn get_button(&self) -> (r: &MouseButton)
        ensures
            *r == self.button,
    {
        &self.button
    }
}

impl WindowCloseEvent {
    pub fn get_window_id(&self) -> (r: WindowId)
        ensures
            r == self.window_id,
    {
        self.window_id
    }
}

impl WindowResizeEvent {
    pub fn get_width_and_height(&self) -> (r: (u32, u32))
        ensures
            r == (self.width, self.height),
    {
        (self.width, self.height)
    }
}

impl WindowRedrawRequestedEvent {
    pub fn get_window_id(&self) -> (r: &WindowId)
        ensures
            *r == self.window_id,
    {
        &self.window_id
    }
}

// ---------------------------------------------------------------------------
// Erased payloads
/// A borrowed payload of any kind: the uniform shape in which payloads travel through
/// dispatchers and layers. Its variant is the payload's runtime identity.
#[derive(Clone, Copy)]
pub enum AnyEvent<'a> {
    KeyPressed(&'a KeyPressedEvent),
    KeyReleased(&'a KeyReleasedEvent),
    MouseMove(&'a MouseMoveEvent),
    MouseButtonPressed(&'a MouseButtonPressedEvent),
    MouseButtonReleased(&'a MouseButtonReleasedEvent),
    WindowResize(&'a WindowResizeEvent),
    WindowClose(&'a WindowCloseEvent),
    WindowRedrawRequested(&'a WindowRedrawRequestedEvent),
    WindowRaw(&'a WindowEvent),
}

/// An erased payload together with a tag of the caller's choosing.
pub struct Event<'a, T> {
    pub event_type: T,
    pub event_payload: AnyEvent<'a>,
}

/// The capability set that every payload type offers.
pub trait Eventable: Sized {
    /// The identity shared by every payload of this type.
    spec fn type_id_spec() -> EventKind;

    spec fn name_view(&self) -> Seq<char>;

    spec fn display_view(&self) -> Seq<char>;

    spec fn handled_view(&self) -> bool;

    spec fn downcast_spec(e: AnyEvent<'_>) -> Option<Self>;

    /// This payload, erased.
    spec fn as_any_spec(&self) -> AnyEvent<'_>;

    /// The identity of this payload type, without a payload at hand.
    fn type_id_of() -> (k: EventKind)
        ensures
            k == Self::type_id_spec(),
    ;

    fn get_name(&self) -> (r: &str)
        ensures
            r@ == self.name_view(),
    ;

    fn to_string(&self) -> (r: String)
        ensures
            r@ == self.display_view(),
    ;

    fn get_type_id(&self) -> (k: EventKind)
        ensures
            k == Self::type_id_spec(),
    ;

    fn is_handled(&self) -> (b: bool)
        ensures
            b == self.handled_view(),
    ;

    /// This payload, erased.
    fn as_any(&self) -> (r: AnyEvent<'_>)
        ensures
            r == self.as_any_spec(),
            r.kind() == Self::type_id_spec(),
            Self::downcast_spec(r) == Some(*self),
    ;

    /// The payload behind `e` when it is of this type.
    fn downcast_ref<'a>(e: AnyEvent<'a>) -> (r: Option<&'a Self>)
        ensures
            r.is_some() == (e.kind() == Self::type_id_spec()),
            Self::downcast_spec(e).is_some() == r.is_some(),
            r matches Some(p) ==> Self::downcast_spec(e) == Some(*p),
    ;
}

impl Eventable for KeyPressedEvent {
    open spec fn type_id_spec() -> EventKind {
        EventKind::KeyPressed
    }

    open spec fn name_view(&self) -> Seq<char> {
        self.name@
    }

    open spec fn display_view(&self) -> Seq<char> {
        key_event_text(self.name@, key_code_text(self.keycode))
    }

    open spec fn handled_view(&self) -> bool {
        self.is_handled
    }

    open spec fn downcast_spec(e: AnyEvent<'_>) -> Option<Self> {
        match e {
            AnyEvent::KeyPressed(p) => Some(*p),
            _ => None,
        }
    }

    open spec fn as_any_spec(&self) -> AnyEvent<'_> {
        AnyEvent::KeyPressed(self)
    }

    fn type_id_of() -> (k: EventKind) {
        EventKind::KeyPressed
    }

    fn get_name(&self) -> (r: &str) {
        self.name.as_str()
    }

    fn to_string(&self) -> (r: String) {
        let key = key_code_name(&self.keycode);
        describe_key_event(self.name.as_str(), key.as_str())
    }

    fn get_type_id(&self) -> (k: EventKind) {
        EventKind::KeyPressed
    }

    fn is_handled(&self) -> (b: bool) {
        self.is_handled
    }

    fn as_any(&self) -> (r: AnyEvent<'_>) {
        AnyEvent::KeyPressed(self)
    }

    fn downcast_ref<'a>(e: AnyEvent<'a>) -> (r: Option<&'a Self>) {
        match e {
            AnyEvent::KeyPressed(p) => Some(p),
            _ => None,
        }
    }
}

impl Eventable for KeyReleasedEvent {
    open spec fn type_id_spec() -> EventKind {
        EventKind::KeyReleased
    }

    open spec fn name_view(&self) -> Seq<char> {
        self.name@
    }

    open spec fn display_view(&self) -> Seq<char> {
        key_event_text(self.name@, key_code_text(self.keycode))
    }

    open spec fn handled_view(&self) -> bool {
        self.is_handled
    }

    open spec fn downcast_spec(e: AnyEvent<'_>) -> Option<Self> {
        match e {
            AnyEvent::KeyReleased(p) => Some(*p),
            _ => None,
        }
    }

    open spec fn as_any_spec(&self) -> AnyEvent<'_> {
        AnyEvent::KeyReleased(self)
    }

    fn type_id_of() -> (k: EventKind) {
        EventKind::KeyReleased
    }

    fn get_name(&self) -> (r: &str) {
        self.name.as_str()
    }

    fn to_string(&self) -> (r: String) {
        let key = key_code_name(&self.keycode);
        describe_key_event(self.name.as_str(), key.as_str())
    }

    fn get_type_id(&self) -> (k: EventKind) {
        EventKind::KeyReleased
    }

    fn is_handled(&self) -> (b: bool) {
        self.is_handled
    }

    fn as_any(&self) -> (r: AnyEvent<'_>) {
        AnyEvent::KeyReleased(self)
    }

    fn downcast_ref<'a>(e: AnyEvent<'a>) -> (r: Option<&'a Self>) {
        match e {
            AnyEvent::KeyReleased(p) => Some(p),
            _ => None,
        }
    }
}

impl Eventable for MouseMoveEvent {
    open spec fn type_id_spec() -> EventKind {
        EventKind::MouseMove
    }

    open spec fn name_view(&self) -> Seq<char> {
        self.name@
    }

    /// The name alone: the coordinates are floating-point values, which this library does
    /// not format.
    open spec fn display_view(&self) -> Seq<char> {
        self.name@
    }

    open spec fn handled_view(&self) -> bool {
        self.is_handled
    }

    open spec fn downcast_spec(e: AnyEvent<'_>) -> Option<Self> {
        match e {
            AnyEvent::MouseMove(p) => Some(*p),
            _ => None,
        }
    }

    open spec fn as_any_spec(&self) -> AnyEvent<'_> {
        AnyEvent::MouseMove(self)
    }

    fn type_id_of() -> (k: EventKind) {
        EventKind::MouseMove
    }

    fn get_name(&self) -> (r: &str) {
        self.name.as_str()
    }

    fn to_string(&self) -> (r: String) {
        self.name.clone()
    }

    fn get_type_id(&self) -> (k: EventKind) {
        EventKind::MouseMove
    }

    fn is_handled(&self) -> (b: bool) {
        self.is_handled
    }

    fn as_any(&self) -> (r: AnyEvent<'_>) {
        AnyEvent::MouseMove(self)
    }

    fn downcast_ref<'a>(e: AnyEvent<'a>) -> (r: Option<&'a Self>) {
        match e {
            AnyEvent::MouseMove(p) => Some(p),
            _ => None,
        }
    }
}

impl Eventable for MouseButtonPressedEvent {
    open spec fn type_id_spec() -> EventKind {
        EventKind::MouseButtonPressed
    }

    open spec fn name_view(&self) -> Seq<char> {
        self.name@
    }

    open spec fn display_view(&self) -> Seq<char> {
        button_event_text(self.name@, self.button)
    }

    open spec fn handled_view(&self) -> bool {
        self.is_handled
    }

    open spec fn downcast_spec(e: AnyEvent<'_>) -> Option<Self> {
        match e {
            AnyEvent::MouseButtonPressed(p) => Some(*p),
            _ => None,
        }
    }

    open spec fn as_any_spec(&self) -> AnyEvent<'_> {
        AnyEvent::MouseButtonPressed(self)
    }

    fn type_id_of() -> (k: EventKind) {
        EventKind::MouseButtonPressed
    }

    fn get_name(&self) -> (r: &str) {
        self.name.as_str()
    }

    fn to_string(&self) -> (r: String) {
        describe_button_event(&self.name, &self.button)
    }

    fn get_type_id(&self) -> (k: EventKind) {
        EventKind::MouseButtonPressed
    }

    fn is_handled(&self) -> (b: bool) {
        self.is_handled
    }

    fn as_any(&self) -> (r: AnyEvent<'_>) {
        AnyEvent::MouseButtonPressed(self)
    }

    fn downcast_ref<'a>(e: AnyEvent<'a>) -> (r: Option<&'a Self>) {
        match e {
            AnyEvent::MouseButtonPressed(p) => Some(p),
            _ => None,
        }
    }
}

impl Eventable for MouseButtonReleasedEvent {
    open spec fn type_id_spec() -> EventKind {
        EventKind::MouseButtonReleased
    }

    open spec fn name_view(&self) -> Seq<char> {
        self.name@
    }

    open spec fn display_view(&self) -> Seq<char> {
        button_event_text(self.name@, self.button)
    }

    open spec fn handled_view(&self) -> bool {
        self.is_handled
    }

    open spec fn downcast_spec(e: AnyEvent<'_>) -> Option<Self> {
        match e {
            AnyEvent::MouseButtonReleased(p) => Some(*p),
            _ => None,
        }
    }

    open spec fn as_any_spec(&self) -> AnyEvent<'_> {
        AnyEvent::MouseButtonReleased(self)
    }

    fn type_id_of() -> (k: EventKind) {
        EventKind::MouseButtonReleased
    }

    fn get_name(&self) -> (r: &str) {
        self.name.as_str()
    }

    fn to_string(&self) -> (r: String) {
        describe_button_event(&self.name, &self.button)
    }

    fn get_type_id(&self) -> (k: EventKind) {
        EventKind::MouseButtonReleased
    }

    fn is_handled(&self) -> (b: bool) {
        self.is_handled
    }

    fn as_any(&self) -> (r: AnyEvent<'_>) {
        AnyEvent::MouseButtonReleased(self)
    }

    fn downcast_ref<'a>(e: AnyEvent<'a>) -> (r: Option<&'a Self>) {
        match e {
            AnyEvent::MouseButtonReleased(p) => Some(p),
            _ => None,
        }
    }
}

impl Eventable for WindowResizeEvent {
    open spec fn type_id_spec() -> EventKind {
        EventKind::WindowResize
    }

    open spec fn name_view(&self) -> Seq<char> {
        self.name@
    }

    open spec fn display_view(&self) -> Seq<char> {
        resize_text(self.name@, self.width, self.height)
    }

    open spec fn handled_view(&self) -> bool {
        self.is_handled
    }

    open spec fn downcast_spec(e: AnyEvent<'_>) -> Option<Self> {
        match e {
            AnyEvent::WindowResize(p) => Some(*p),
            _ => None,
        }
    }

    open spec fn as_any_spec(&self) -> AnyEvent<'_> {
        AnyEvent::WindowResize(self)
    }

    fn type_id_of() -> (k: EventKind) {
        EventKind::WindowResize
    }

    fn get_name(&self) -> (r: &str) {
        self.name.as_str()
    }

    fn to_string(&self) -> (r: String) {
        let w = decimal_text(self.width);
        let h = decimal_text(self.height);
        self.name.clone().concat(": width - ").concat(w.as_str()).concat(", height - ").concat(
            h.as_str(),
        )
    }

    fn get_type_id(&self) -> (k: EventKind) {
        EventKind::WindowResize
    }

    fn is_handled(&self) -> (b: bool) {
        self.is_handled
    }

    fn as_any(&self) -> (r: AnyEvent<'_>) {
        AnyEvent::WindowResize(self)
    }

    fn downcast_ref<'a>(e: AnyEvent<'a>) -> (r: Option<&'a Self>) {
        match e {
            AnyEvent::WindowResize(p) => Some(p),
            _ => None,
        }
    }
}

impl Eventable for WindowCloseEvent {
    open spec fn type_id_spec() -> EventKind {
        EventKind::WindowClose
    }

    open spec fn name_view(&self) -> Seq<char> {
        self.name@
    }

    open spec fn display_view(&self) -> Seq<char> {
        self.name@
    }

    open spec fn handled_view(&self) -> bool {
        self.is_handled
    }

    open spec fn downcast_spec(e: AnyEvent<'_>) -> Option<Self> {
        match e {
            AnyEvent::WindowClose(p) => Some(*p),
            _ => None,
        }
    }

    open spec fn as_any_spec(&self) -> AnyEvent<'_> {
        AnyEvent::WindowClose(self)
    }

    fn type_id_of() -> (k: EventKind) {
        EventKind::WindowClose
    }

    fn get_name(&self) -> (r: &str) {
        self.name.as_str()
    }

    fn to_string(&self) -> (r: String) {
        self.name.clone()
    }

    fn get_type_id(&self) -> (k: EventKind) {
        EventKind::WindowClose
    }

    fn is_handled(&self) -> (b: bool) {
        self.is_handled
    }

    fn as_any(&self) -> (r: AnyEvent<'_>) {
        AnyEvent::WindowClose(self)
    }

    fn downcast_ref<'a>(e: AnyEvent<'a>) -> (r: Option<&'a Self>) {
        match e {
            AnyEvent::WindowClose(p) => Some(p),
            _ => None,
        }
    }
}

impl Eventable for WindowRedrawRequestedEvent {
    open spec fn type_id_spec() -> EventKind {
        EventKind::WindowRedrawRequested
    }

    open spec fn name_view(&self) -> Seq<char> {
        self.name@
    }

    open spec fn display_view(&self) -> Seq<char> {
        self.name@
    }

    open spec fn handled_view(&self) -> bool {
        self.is_handled
    }

    open spec fn downcast_spec(e: AnyEvent<'_>) -> Option<Self> {
        match e {
            AnyEvent::WindowRedrawRequested(p) => Some(*p),
            _ => None,
        }
    }

    open spec fn as_any_spec(&self) -> AnyEvent<'_> {
        AnyEvent::WindowRedrawRequested(self)
    }

    fn type_id_of() -> (k: EventKind) {
        EventKind::WindowRedrawRequested
    }

    fn get_name(&self) -> (r: &str) {
        self.name.as_str()
    }

    fn to_string(&self) -> (r: String) {
        self.name.clone()
    }

    fn get_type_id(&self) -> (k: EventKind) {
        EventKind::WindowRedrawRequested
    }

    fn is_handled(&self) -> (b: bool) {
        self.is_handled
    }

    fn as_any(&self) -> (r: AnyEvent<'_>) {
        AnyEvent::WindowRedrawRequested(self)
    }

    fn downcast_ref<'a>(e: AnyEvent<'a>) -> (r: Option<&'a Self>) {
        match e {
            AnyEvent::WindowRedrawRequested(p) => Some(p),
            _ => None,
        }
    }
}

/// A raw platform notification, passed through unmodified.
impl Eventable for WindowEvent {
    open spec fn type_id_spec() -> EventKind {
        EventKind::WindowRaw
    }

    open spec fn name_view(&self) -> Seq<char> {
        "Window Event"@
    }

    open spec fn display_view(&self) -> Seq<char> {
        "Window Event"@
    }

    open spec fn handled_view(&self) -> bool {
        false
    }

    open spec fn downcast_spec(e: AnyEvent<'_>) -> Option<Self> {
        match e {
            AnyEvent::WindowRaw(p) => Some(*p),
            _ => None,
        }
    }

    open spec fn as_any_spec(&self) -> AnyEvent<'_> {
        AnyEvent::WindowRaw(self)
    }

    fn type_id_of() -> (k: EventKind) {
        EventKind::WindowRaw
    }

    fn get_name(&self) -> (r: &str) {
        "Window Event"
    }

    fn to_string(&self) -> (r: String) {
        String::from_str("Window Event")
    }

    fn get_type_id(&self) -> (k: EventKind) {
        EventKind::WindowRaw
    }

    fn is_handled(&self) -> (b: bool) {
        false
    }

    fn as_any(&self) -> (r: AnyEvent<'_>) {
        AnyEvent::WindowRaw(self)
    }

    fn downcast_ref<'a>(e: AnyEvent<'a>) -> (r: Option<&'a Self>) {
        match e {
            AnyEvent::WindowRaw(p) => Some(p),
            _ => None,
        }
    }
}

impl<'a> AnyEvent<'a> {
    /// The runtime identity of the payload behind this value.
    pub open spec fn kind(self) -> EventKind {
        match self {
            AnyEvent::KeyPressed(_) => EventKind::KeyPressed,
            AnyEvent::KeyReleased(_) => EventKind::KeyReleased,
            AnyEvent::MouseMove(_) => EventKind::MouseMove,
            AnyEvent::MouseButtonPressed(_) => EventKind::MouseButtonPressed,
            AnyEvent::MouseButtonReleased(_) => EventKind::MouseButtonReleased,
            AnyEvent::WindowResize(_) => EventKind::WindowResize,
            AnyEvent::WindowClose(_) => EventKind::WindowClose,
            AnyEvent::WindowRedrawRequested(_) => EventKind::WindowRedrawRequested,
            AnyEvent::WindowRaw(_) => EventKind::WindowRaw,
        }
    }

    pub open spec fn name_view(self) -> Seq<char> {
        match self {
            AnyEvent::KeyPressed(p) => p.name_view(),
            AnyEvent::KeyReleased(p) => p.name_view(),
            AnyEvent::MouseMove(p) => p.name_view(),
            AnyEvent::MouseButtonPressed(p) => p.name_view(),
            AnyEvent::MouseButtonReleased(p) => p.name_view(),
            AnyEvent::WindowResize(p) => p.name_view(),
            AnyEvent::WindowClose(p) => p.name_view(),
            AnyEvent::WindowRedrawRequested(p) => p.name_view(),
            AnyEvent::WindowRaw(p) => p.name_view(),
        }
    }

    pub open spec fn display_view(self) -> Seq<char> {
        match self {
            AnyEvent::KeyPressed(p) => p.display_view(),
            AnyEvent::KeyReleased(p) => p.display_view(),
            AnyEvent::MouseMove(p) => p.display_view(),
            AnyEvent::MouseButtonPressed(p) => p.display_view(),
            AnyEvent::MouseButtonReleased(p) => p.display_view(),
            AnyEvent::WindowResize(p) => p.display_view(),
            AnyEvent::WindowClose(p) => p.display_view(),
            AnyEvent::WindowRedrawRequested(p) => p.display_view(),
            AnyEvent::WindowRaw(p) => p.display_view(),
        }
    }

    pub open spec fn handled_view(self) -> bool {
        match self {
            AnyEvent::KeyPressed(p) => p.handled_view(),
            AnyEvent::KeyReleased(p) => p.handled_view(),
            AnyEvent::MouseMove(p) => p.handled_view(),
            AnyEvent::MouseButtonPressed(p) => p.handled_view(),
            AnyEvent::MouseButtonReleased(p) => p.handled_view(),
            AnyEvent::WindowResize(p) => p.handled_view(),
            AnyEvent::WindowClose(p) => p.handled_view(),
            AnyEvent::WindowRedrawRequested(p) => p.handled_view(),
            AnyEvent::WindowRaw(p) => p.handled_view(),
        }
    }

    pub fn get_type_id(&self) -> (k: EventKind)
        ensures
            k == self.kind(),
    {
        match self {
            AnyEvent::KeyPressed(p) => p.get_type_id(),
            AnyEvent::KeyReleased(p) => p.get_type_id(),
            AnyEvent::MouseMove(p) => p.get_type_id(),
            AnyEvent::MouseButtonPressed(p) => p.get_type_id(),
            AnyEvent::MouseButtonReleased(p) => p.get_type_id(),
            AnyEvent::WindowResize(p) => p.get_type_id(),
            AnyEvent::WindowClose(p) => p.get_type_id(),
            AnyEvent::WindowRedrawRequested(p) => p.get_type_id(),
            AnyEvent::WindowRaw(p) => p.get_type_id(),
        }
    }

    pub fn get_name(&self) -> (r: &str)
        ensures
            r@ == self.name_view(),
    {
        match self {
            AnyEvent::KeyPressed(p) => p.get_name(),
            AnyEvent::KeyReleased(p) => p.get_name(),
            AnyEvent::MouseMove(p) => p.get_name(),
            AnyEvent::MouseButtonPressed(p) => p.get_name(),
            AnyEvent::MouseButtonReleased(p) => p.get_name(),
            AnyEvent::WindowResize(p) => p.get_name(),
            AnyEvent::WindowClose(p) => p.get_name(),
            AnyEvent::WindowRedrawRequested(p) => p.get_name(),
            AnyEvent::WindowRaw(p) => p.get_name(),
        }
    }

    pub fn to_string(&self) -> (r: String)
        ensures
            r@ == self.display_view(),
    {
        match self {
            AnyEvent::KeyPressed(p) => p.to_string(),
            AnyEvent::KeyReleased(p) => p.to_string(),
            AnyEvent::MouseMove(p) => p.to_string(),
            AnyEvent::MouseButtonPressed(p) => p.to_string(),
            AnyEvent::MouseButtonReleased(p) => p.to_string(),
            AnyEvent::WindowResize(p) => p.to_string(),
            AnyEvent::WindowClose(p) => p.to_string(),
            AnyEvent::WindowRedrawRequested(p) => p.to_string(),
            AnyEvent::WindowRaw(p) => p.to_string(),
        }
    }

    pub fn is_handled(&self) -> (b: bool)
        ensures
            b == self.handled_view(),
    {
        match self {
            AnyEvent::KeyPressed(p) => p.is_handled(),
            AnyEvent::KeyReleased(p) => p.is_handled(),
            AnyEvent::MouseMove(p) => p.is_handled(),
            AnyEvent::MouseButtonPressed(p) => p.is_handled(),
            AnyEvent::MouseButtonReleased(p) => p.is_handled(),
            AnyEvent::WindowResize(p) => p.is_handled(),
            AnyEvent::WindowClose(p) => p.is_handled(),
            AnyEvent::WindowRedrawRequested(p) => p.is_handled(),
            AnyEvent::WindowRaw(p) => p.is_handled(),
        }
    }
}

} // verus!
