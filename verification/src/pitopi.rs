//! How the serial transport of one link is set up.

use vstd::prelude::*;

verus! {

/// The receive program of a link, named after the layout of its pins.
#[derive(Debug, Clone, Copy, PartialEq, Eq, Structural)]
pub enum RxProgram {
    /// Data, word and clock on three pins in a row.
    Consecutive,
    /// Data on the base pin, word two and clock three pins above it.
    P023,
}

/// The transmit program of a link.
#[derive(Debug, Clone, Copy, PartialEq, Eq, Structural)]
pub enum TxProgram {
    /// The clock is driven through the side-set pin.
    SidesetWC,
}

/// The programs of one link.
#[derive(Debug, Clone, Copy, PartialEq, Eq, Structural)]
pub struct LinkConfig {
    pub rx_program: RxProgram,
    pub tx_program: TxProgram,
}

/// Why a link could not be set up.
#[derive(Debug, Clone, Copy, PartialEq, Eq, Structural)]
pub enum PitopiError {
    TxProgramNotInstalled,
    RxProgramNotInstalled,
}

/// The pins of a receiver: data, word and clock.
#[derive(Debug, Clone, Copy, PartialEq, Eq, Structural)]
pub struct RxPins {
    pub data: u8,
    pub word: u8,
    pub clk: u8,
}

/// The pins that a receive program reads, counted from its base pin.
pub open spec fn rx_layout(program: RxProgram, base: u8) -> RxPins {
    match program {
        RxProgram::Consecutive => RxPins { data: base, word: (base + 1) as u8, clk: (base + 2) as u8 },
        RxProgram::P023 => RxPins { data: base, word: (base + 2) as u8, clk: (base + 3) as u8 },
    }
}

impl LinkConfig {
    /// The configuration that links use unless told otherwise.
    pub fn default_link_config() -> (config: Self)
        ensures
            config == (LinkConfig {
                rx_program: RxProgram::Consecutive,
                tx_program: TxProgram::SidesetWC,
            }),
    {
        LinkConfig { rx_program: RxProgram::Consecutive, tx_program: TxProgram::SidesetWC }
    }

    /// The pins of the receiver whose data pin is `base`, or nothing where
    /// they would lie beyond the last pin number.
    pub fn rx_pins(&self, base: u8) -> (pins: Option<RxPins>)
        ensures
            base <= 252 ==> pins == Some(rx_layout(self.rx_program, base)),
            base > 252 ==> pins is None,
    {
        if base > 252 {
            return None;
        }
        match self.rx_program {
            RxProgram::Consecutive => Some(RxPins { data: base, word: base + 1, clk: base + 2 }),
            RxProgram::P023 => Some(RxPins { data: base, word: base + 2, clk: base + 3 }),
        }
    }

    /// Whether the programs that the link needs are installed. The receive
    /// program is looked for first.
    pub fn installed(&self, consecutive: bool, p023: bool, tx: bool) -> (ready: Result<
        (),
        PitopiError,
    >)
        ensures
            ready == (if !(match self.rx_program {
                RxProgram::Consecutive => consecutive,
                RxProgram::P023 => p023,
            }) {
                Err::<(), PitopiError>(PitopiError::RxProgramNotInstalled)
            } else if !tx {
                Err::<(), PitopiError>(PitopiError::TxProgramNotInstalled)
            } else {
                Ok::<(), PitopiError>(())
            }),
    {
        let rx = match self.rx_program {
            RxProgram::Consecutive => consecutive,
            RxProgram::P023 => p023,
        };
        if !rx {
            Err(PitopiError::RxProgramNotInstalled)
        } else if !tx {
            Err(PitopiError::TxProgramNotInstalled)
        } else {
            Ok(())
        }
    }
}

} // verus!
