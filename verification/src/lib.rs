//! Hardware abstraction layer for a single-core microcontroller family,
//! centred on its asynchronous serial transport core: a single-producer /
//! single-consumer byte queue, a DMA-fed circular capture buffer, a family of
//! retry/timeout policies, and the transmit/receive pipelines that move a
//! UART's byte stream between application code and an interrupt handler.
//!
//! Register programming itself is out of scope; peripherals are reached
//! through capability traits (`uart::UartPeriph`, `dma::DmaChannel`,
//! `timer::GeneralTimer`, `retry::TickCounter`) that state, as contracts,
//! exactly what the pipelines rely on, and each trait comes with an in-memory
//! implementation for hosts without the hardware.

pub mod dma;
pub mod interrupt;
pub mod retry;
pub mod ringbuf;
pub mod timer;
pub mod uart;
pub mod uart_dma;
pub mod uart_it;
pub mod uart_poll;
