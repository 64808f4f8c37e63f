//! Device drivers built on the peripheral register blocks.

pub mod usart1;
