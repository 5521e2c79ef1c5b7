//! Verified logic of a set of STM32F4 peripheral lessons: the decisions, encodings and
//! text that the interrupt handlers and set-up routines compute, apart from the register
//! accesses themselves.

pub mod bits;
pub mod text;
pub mod usart;
pub mod rtc;
pub mod ws2812;
pub mod lcd;
pub mod i2c;
pub mod spi;
pub mod dma;
pub mod timers;
pub mod exti;
pub mod memory_map;
