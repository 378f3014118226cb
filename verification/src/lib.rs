//! Signal interpretation for a small front panel: a quadrature decoder for an
//! incremental rotary encoder and a shift-register debouncer for a push
//! button, both fed once per timer tick with the bits read from the input
//! port. Beside them stand the bit patterns that drive the character display,
//! the LEDs and the serial baud-rate register.
//!
//! Nothing here touches a peripheral: every function takes the register
//! values it needs as integers and hands back the values to write.

pub mod button;
pub mod debounce;
pub mod inputs;
pub mod lcd;
pub mod led;
pub mod rotary_encoder;
pub mod rotation;
pub mod serial;
