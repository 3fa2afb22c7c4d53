//! Which pins can serve which Flexcomm interface (I2C, I2S, SPI, USART),
//! as traits that the pin types implement.

use vstd::prelude::*;
use crate::hal::pin::{PinId, PinType};

verus! {

/// An I2C peripheral.
pub trait I2c {}

/// An I2S peripheral.
pub trait I2s {}

/// An SPI peripheral.
pub trait Spi {}

/// A USART peripheral.
pub trait Usart {}

pub trait I2cSclPin<PIO, I2C> where PIO: PinId, I2C: I2c {}

pub trait I2cSdaPin<PIO, I2C> where PIO: PinId, I2C: I2c {}

pub trait I2sSckPin<PIO, I2S> where PIO: PinId, I2S: I2s {}

pub trait I2sWsPin<PIO, I2S> where PIO: PinId, I2S: I2s {}

pub trait I2sSdaPin<PIO, I2S> where PIO: PinId, I2S: I2s {}

pub trait I2sMclkPin<PIO, I2S> where PIO: PinId, I2S: I2s {}

/// The chip select line that an SPI pin drives.
pub enum ChipSelect {
    Chip0,
    Chip1,
    Chip2,
    Chip3,
    NoChips,
}

pub trait SpiSckPin<PIO, SPI> where PIO: PinId, SPI: Spi {}

pub trait SpiMosiPin<PIO, SPI> where PIO: PinId, SPI: Spi {}

pub trait SpiMisoPin<PIO, SPI> where PIO: PinId, SPI: Spi {}

pub trait SpiCsPin<PIO, SPI> where PIO: PinId, SPI: Spi {
    const CS: ChipSelect;
}

/// No MOSI line.
pub struct NoMosi;

impl<SPI: Spi> SpiMosiPin<NoPio, SPI> for NoMosi {}

/// No MISO line.
pub struct NoMiso;

impl<SPI: Spi> SpiMisoPin<NoPio, SPI> for NoMiso {}

/// No chip select line.
pub struct NoCs;

impl<SPI: Spi> SpiCsPin<NoPio, SPI> for NoCs {
    const CS: ChipSelect = ChipSelect::NoChips;
}

pub trait UsartTxPin<PIO, USART> where PIO: PinId, USART: Usart {}

pub trait UsartRxPin<PIO, USART> where PIO: PinId, USART: Usart {}

pub trait UsartRtsPin<PIO, USART> where PIO: PinId, USART: Usart {}

pub trait UsartCtsPin<PIO, USART> where PIO: PinId, USART: Usart {}

pub trait UsartSclkPin<PIO, USART> where PIO: PinId, USART: Usart {}

/// No pin.
pub struct NoPio;

impl PinId for NoPio {
    const PORT: usize = !0;
    const NUMBER: u8 = !0;
    const MASK: u32 = !0;
    const OFFSET: usize = !0;
    const TYPE: PinType = PinType::D;
}

/// No transmit line.
pub struct NoTx;

/// No receive line.
pub struct NoRx;

impl<USART: Usart> UsartTxPin<NoPio, USART> for NoTx {}

impl<USART: Usart> UsartRxPin<NoPio, USART> for NoRx {}

/// The two pins of an I2C bus.
pub trait I2cPins<PIO1: PinId, PIO2: PinId, I2C: I2c> {}

impl<PIO1, PIO2, I2C, SCL, SDA> I2cPins<PIO1, PIO2, I2C> for (SCL, SDA) where
    PIO1: PinId,
    PIO2: PinId,
    I2C: I2c,
    SCL: I2cSclPin<PIO1, I2C>,
    SDA: I2cSdaPin<PIO2, I2C>,
 {}

/// The four pins of an SPI bus, and the chip select they drive.
pub trait SpiPins<PIO1: PinId, PIO2: PinId, PIO3: PinId, PIO4: PinId, SPI: Spi> {
    const CS: ChipSelect;
}

impl<PIO1, PIO2, PIO3, PIO4, SPI, SCK, MOSI, MISO, CS> SpiPins<PIO1, PIO2, PIO3, PIO4, SPI> for (
    SCK,
    MOSI,
    MISO,
    CS,
) where
    PIO1: PinId,
    PIO2: PinId,
    PIO3: PinId,
    PIO4: PinId,
    SPI: Spi,
    SCK: SpiSckPin<PIO1, SPI>,
    MOSI: SpiMosiPin<PIO2, SPI>,
    MISO: SpiMisoPin<PIO3, SPI>,
    CS: SpiCsPin<PIO4, SPI>,
 {
    const CS: ChipSelect = CS::CS;
}

/// The two pins of a USART.
pub trait UsartPins<PIO1: PinId, PIO2: PinId, USART: Usart> {}

impl<PIO1, PIO2, USART, TX, RX> UsartPins<PIO1, PIO2, USART> for (TX, RX) where
    PIO1: PinId,
    PIO2: PinId,
    USART: Usart,
    TX: UsartTxPin<PIO1, USART>,
    RX: UsartRxPin<PIO2, USART>,
 {}

} // verus!
