//! Register access for a few peripheral registers of the SAM D11 / E5x
//! families, and the reader and writer types they share.
pub mod generic;
pub mod dmac_busych;
pub mod i2cs_syncbusy;
pub mod rtc_mode0_intenclr;
pub mod rtc_mode2_intflag;
pub mod usart_intflag;
pub mod sdhc_nisier;
