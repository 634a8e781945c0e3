//! Platform (winit) values that payloads carry through unchanged.
use vstd::prelude::*;

verus! {

/// winit's physical key code: carried by key payloads, never inspected.
#[verifier::external_type_specification]
#[verifier::external_body]
pub struct ExKeyCode(winit::keyboard::KeyCode);

/// winit's input device identifier: carried by pointer payloads, never inspected.
#[verifier::external_type_specification]
#[verifier::external_body]
pub struct ExDeviceId(winit::event::DeviceId);

/// winit's window identifier: carried by window payloads, never inspected.
#[verifier::external_type_specification]
#[verifier::external_body]
pub struct ExWindowId(winit::window::WindowId);

/// winit's raw window notification, passed through as a payload of its own.
#[verifier::external_type_specification]
#[verifier::external_body]
pub struct ExWindowEvent(winit::event::WindowEvent);

} // verus!
