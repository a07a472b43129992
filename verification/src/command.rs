use vstd::prelude::*;

use crate::interface::DisplayInterface;

verus! {

/// The resolution classes the panel-setting command can select.
#[derive(Clone, Copy, PartialEq, Eq, Debug, Structural)]
pub enum DisplayResolution {
    R96x230,
    R96x252,
    R128x296,
    R160x296,
}

impl DisplayResolution {
    /// The two resolution bits, already placed in bits 6 and 7.
    pub open spec fn encoding(self) -> u8 {
        match self {
            DisplayResolution::R96x230 => 0x00,
            DisplayResolution::R96x252 => 0x40,
            DisplayResolution::R128x296 => 0x80,
            DisplayResolution::R160x296 => 0xC0,
        }
    }
}

/// Which planes the VCOM and data-interval setting applies to.
#[derive(Clone, Copy, PartialEq, Eq, Debug, Structural)]
pub enum DataPolarity {
    BWOnly,
    RedOnly,
    Both,
}

impl DataPolarity {
    /// The two polarity bits, already placed in bits 4 and 5.
    pub open spec fn encoding(self) -> u8 {
        match self {
            DataPolarity::BWOnly => 0x10,
            DataPolarity::RedOnly => 0x20,
            DataPolarity::Both => 0x30,
        }
    }
}

/// The VCOM-to-data interval, in units the controller defines. The wire code
/// decreases strictly as the enumerated interval increases: `V2` is `0b1111`
/// and `V17` is `0b0000`.
#[derive(Clone, Copy, PartialEq, Eq, Debug, Structural)]
pub enum DataInterval {
    V2,
    V3,
    V4,
    V5,
    V6,
    V7,
    V8,
    V9,
    V10,
    V11,
    V12,
    V13,
    V14,
    V15,
    V16,
    V17,
}

impl DataInterval {
    /// The four interval bits.
    pub open spec fn encoding(self) -> u8 {
        match self {
            DataInterval::V2 => 0b1111,
            DataInterval::V3 => 0b1110,
            DataInterval::V4 => 0b1101,
            DataInterval::V5 => 0b1100,
            DataInterval::V6 => 0b1011,
            DataInterval::V7 => 0b1010,
            DataInterval::V8 => 0b1001,
            DataInterval::V9 => 0b1000,
            DataInterval::V10 => 0b0111,
            DataInterval::V11 => 0b0110,
            DataInterval::V12 => 0b0101,
            DataInterval::V13 => 0b0100,
            DataInterval::V14 => 0b0011,
            DataInterval::V15 => 0b0010,
            DataInterval::V16 => 0b0001,
            DataInterval::V17 => 0b0000,
        }
    }
}

/// A command that can be issued to the controller: an opcode plus zero to
/// five argument bytes.
#[derive(Clone, Copy, PartialEq, Eq, Debug, Structural)]
pub enum Command {
    /// Select the panel resolution class (PSR); overridden by
    /// `ResolutionSetting` (TRES).
    PanelSetting(DisplayResolution),
    /// Driving voltages vdh, vdl and vdhr, each a 6-bit value (PWR).
    PowerSetting(u8, u8, u8),
    /// Power off (POF).
    PowerOff,
    /// Power on (PON).
    PowerOn,
    /// Booster soft-start phases a, b and c (BTST).
    BoosterSoftStart(u8, u8, u8),
    /// Enter deep sleep; carries the fixed check byte 0xA5.
    DeepSleep,
    /// Data stop (DSP).
    DataStop,
    /// Start a display refresh (DRF).
    DisplayRefresh,
    /// PLL clock setting (PLL).
    PLLControl(u8),
    /// Border data (2 bits), plane polarity and interval (CDI).
    VCOMDataIntervalSetting(u8, DataPolarity, DataInterval),
    /// Horizontal resolution in columns and vertical resolution, at most
    /// 511 rows (TRES).
    ResolutionSetting(u8, u16),
    /// VCOM DC level, at most 0b111010 (VDCS).
    VCMDCSetting(u8),
}

impl Command {
    /// The argument bounds the controller documents for each command.
    pub open spec fn wf(self) -> bool {
        match self {
            Command::PowerSetting(vdh, vdl, vdhr) => vdh < 64 && vdl < 64 && vdhr < 64,
            Command::VCOMDataIntervalSetting(border_data, _, _) => border_data < 4,
            Command::ResolutionSetting(_, vertical) => vertical < 512,
            Command::VCMDCSetting(vcom_dc) => vcom_dc <= 0x3A,
            _ => true,
        }
    }

    /// The exact bytes the controller observes for this command: the opcode
    /// followed by the argument bytes.
    pub open spec fn encoded(self) -> Seq<u8> {
        match self {
            Command::PanelSetting(resolution) => seq![0x00u8, resolution.encoding() | 0x0Fu8],
            Command::PowerSetting(vdh, vdl, vdhr) => seq![0x01u8, 0x03u8, 0x00u8, vdh, vdl, vdhr],
            Command::PowerOff => seq![0x03u8],
            Command::PowerOn => seq![0x04u8],
            Command::BoosterSoftStart(a, b, c) => seq![0x06u8, a, b, c],
            Command::DeepSleep => seq![0x08u8, 0xA5u8],
            Command::DataStop => seq![0x11u8],
            Command::DisplayRefresh => seq![0x12u8],
            Command::PLLControl(clock) => seq![0x30u8, clock],
            Command::VCOMDataIntervalSetting(border_data, polarity, interval) => seq![
                0x50u8,
                (border_data << 6) | polarity.encoding() | interval.encoding(),
            ],
            Command::ResolutionSetting(horiz, vertical) => seq![
                0x61u8,
                horiz,
                ((vertical & 0x100) >> 8) as u8,
                (vertical & 0xFF) as u8,
            ],
            Command::VCMDCSetting(vcom_dc) => seq![0x82u8, vcom_dc],
        }
    }

    /// Execute the command: send its opcode, then its argument bytes if it
    /// has any. On success the controller has observed exactly
    /// `self.encoded()`; a transport failure aborts at once and is returned
    /// verbatim.
    pub fn execute<I: DisplayInterface>(&self, interface: &mut I) -> (r: Result<(), I::Error>)
        requires
            self.wf(),
        ensures
            final(interface).supports_host_buffer() == old(interface).supports_host_buffer(),
            final(interface).supports_sram() == old(interface).supports_sram(),
            final(interface).obeys_sram_model() == old(interface).obeys_sram_model(),
            final(interface).sram() == old(interface).sram(),
            r is Ok ==> final(interface).log() == old(interface).log() + self.encoded(),
    {
        let mut args: Vec<u8> = Vec::new();
        let command: u8 = match *self {
            Command::PanelSetting(resolution) => {
                let res: u8 = match resolution {
                    DisplayResolution::R96x230 => 0b0000_0000,
                    DisplayResolution::R96x252 => 0b0100_0000,
                    DisplayResolution::R128x296 => 0b1000_0000,
                    DisplayResolution::R160x296 => 0b1100_0000,
                };
                args.push(res | 0b001111);
                0x00
            },
            Command::PowerSetting(vdh, vdl, vdhr) => {
                args.push(0x03);
                args.push(0x00);
                args.push(vdh);
                args.push(vdl);
                args.push(vdhr);
                0x01
            },
            Command::PowerOff => 0x03,
            Command::PowerOn => 0x04,
            Command::BoosterSoftStart(phase_a, phase_b, phase_c) => {
                args.push(phase_a);
                args.push(phase_b);
                args.push(phase_c);
                0x06
            },
            Command::DeepSleep => {
                args.push(0xA5);
                0x08
            },
            Command::DataStop => 0x11,
            Command::DisplayRefresh => 0x12,
            Command::PLLControl(clock) => {
                args.push(clock);
                0x30
            },
            Command::VCOMDataIntervalSetting(border_data, data_polarity, interval) => {
                let vbd: u8 = border_data << 6u8;
                let ddx: u8 = match data_polarity {
                    DataPolarity::BWOnly => 0b01_0000,
                    DataPolarity::RedOnly => 0b10_0000,
                    DataPolarity::Both => 0b11_0000,
                };
                let cdi: u8 = match interval {
                    DataInterval::V2 => 0b1111,
                    DataInterval::V3 => 0b1110,
                    DataInterval::V4 => 0b1101,
                    DataInterval::V5 => 0b1100,
                    DataInterval::V6 => 0b1011,
                    DataInterval::V7 => 0b1010,
                    DataInterval::V8 => 0b1001,
                    DataInterval::V9 => 0b1000,
                    DataInterval::V10 => 0b0111,
                    DataInterval::V11 => 0b0110,
                    DataInterval::V12 => 0b0101,
                    DataInterval::V13 => 0b0100,
                    DataInterval::V14 => 0b0011,
                    DataInterval::V15 => 0b0010,
                    DataInterval::V16 => 0b0001,
                    DataInterval::V17 => 0b0000,
                };
                args.push(vbd | ddx | cdi);
                0x50
            },
            Command::ResolutionSetting(horiz, vertical) => {
                let vres_hi: u8 = ((vertical & 0x100) >> 8u16) as u8;
                let vres_lo: u8 = (vertical & 0xFF) as u8;
                args.push(horiz);
                args.push(vres_hi);
                args.push(vres_lo);
                0x61
            },
            Command::VCMDCSetting(vcom_dc) => {
                args.push(vcom_dc);
                0x82
            },
        };
        proof {
            assert(self.encoded() =~= seq![command] + args@);
        }
        interface.send_command(command)?;
        if args.len() == 0 {
            proof {
                assert(old(interface).log() + self.encoded() =~= old(interface).log().push(
                    command,
                ));
            }
            Ok(())
        } else {
            let r = interface.send_data(args.as_slice());
            proof {
                if r is Ok {
                    assert(old(interface).log() + self.encoded() =~= old(interface).log().push(
                        command,
                    ) + args@);
                }
            }
            r
        }
    }
}

/// A plane-transmission command: the write-black or write-red opcode
/// followed by a borrowed buffer of plane bytes.
pub enum BufCommand<'buf> {
    /// Write to the black/white RAM: bit 1 is white, bit 0 is black.
    WriteBlackData(&'buf [u8]),
    /// Write to the red RAM: bit 1 is red, bit 0 defers to the black/white
    /// RAM.
    WriteRedData(&'buf [u8]),
}

impl<'buf> BufCommand<'buf> {
    /// The exact bytes the controller observes for this command.
    pub open spec fn encoded(self) -> Seq<u8> {
        match self {
            BufCommand::WriteBlackData(buffer) => seq![0x10u8] + buffer@,
            BufCommand::WriteRedData(buffer) => seq![0x13u8] + buffer@,
        }
    }

    /// Execute the command, transmitting the associated buffer as well.
    pub fn execute<I: DisplayInterface>(&self, interface: &mut I) -> (r: Result<(), I::Error>)
        ensures
            final(interface).supports_host_buffer() == old(interface).supports_host_buffer(),
            final(interface).supports_sram() == old(interface).supports_sram(),
            final(interface).obeys_sram_model() == old(interface).obeys_sram_model(),
            final(interface).sram() == old(interface).sram(),
            r is Ok ==> final(interface).log() == old(interface).log() + self.encoded(),
    {
        let (command, data): (u8, &[u8]) = match self {
            BufCommand::WriteBlackData(buffer) => (0x10, buffer),
            BufCommand::WriteRedData(buffer) => (0x13, buffer),
        };
        interface.send_command(command)?;
        if data.len() == 0 {
            proof {
                assert(old(interface).log() + self.encoded() =~= old(interface).log().push(
                    command,
                ));
            }
            Ok(())
        } else {
            let r = interface.send_data(data);
            proof {
                if r is Ok {
                    assert(old(interface).log() + self.encoded() =~= old(interface).log().push(
                        command,
                    ) + data@);
                }
            }
            r
        }
    }
}

} // verus!
