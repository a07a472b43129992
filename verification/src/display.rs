use vstd::prelude::*;

use crate::command::Command;
use crate::command::DataInterval;
use crate::command::DataPolarity;
use crate::config::Config;
use crate::interface::Delay;
use crate::interface::DisplayInterface;

verus! {

/// The maximum number of rows the controller can drive.
pub const MAX_GATE_OUTPUTS: u16 = 296;

/// The maximum number of columns the controller can drive.
pub const MAX_SOURCE_OUTPUTS: u8 = 160;

/// The dimensions of the display, in the controller's native orientation.
#[derive(Clone, Copy, PartialEq, Eq, Debug, Structural)]
pub struct Dimensions {
    /// The number of rows; at most [`MAX_GATE_OUTPUTS`].
    pub rows: u16,
    /// The number of columns; at most [`MAX_SOURCE_OUTPUTS`] and divisible
    /// by 8, so that each row is a whole number of plane bytes.
    pub cols: u8,
}

impl Dimensions {
    /// The limits the controller imposes: rows and columns within the panel
    /// maxima, and columns divisible by 8.
    pub open spec fn wf(self) -> bool {
        &&& self.rows <= MAX_GATE_OUTPUTS
        &&& self.cols <= MAX_SOURCE_OUTPUTS
        &&& self.cols % 8 == 0
    }

    /// Decide [`Dimensions::wf`] at run time, for callers whose values come
    /// from outside the proved world.
    pub fn is_valid(&self) -> (r: bool)
        ensures
            r == self.wf(),
    {
        self.rows <= MAX_GATE_OUTPUTS && self.cols <= MAX_SOURCE_OUTPUTS && self.cols % 8 == 0
    }
}

/// The physical rotation of the display relative to its native orientation.
#[derive(Clone, Copy, PartialEq, Eq, Debug, Structural)]
pub enum Rotation {
    Rotate0,
    Rotate90,
    Rotate180,
    Rotate270,
}

impl Default for Rotation {
    /// The default is no rotation.
    fn default() -> (r: Rotation)
        ensures
            r == Rotation::Rotate0,
    {
        Rotation::Rotate0
    }
}

/// The controller lifecycle, tracked alongside a [`Display`]: a reset leads
/// to `Active`, a completed deep sleep to `Sleeping`, and a failure midway
/// through a sequence back to `Uninitialized`, from where only `reset` is
/// meaningful.
#[derive(Clone, Copy, PartialEq, Eq, Debug, Structural)]
pub enum LifecycleState {
    Uninitialized,
    Active,
    Sleeping,
}

/// The exact byte stream the mandated initialization sequence puts on the
/// wire: power setting, booster soft start, power on, panel setting, VCOM
/// and data interval, PLL, VCOM DC, resolution — in this order and no other.
pub open spec fn init_sequence(config: Config) -> Seq<u8> {
    config.power_setting.encoded() + config.booster_soft_start.encoded()
        + Command::PowerOn.encoded() + config.panel_setting.encoded()
        + Command::VCOMDataIntervalSetting(0x0, DataPolarity::Both, DataInterval::V10).encoded()
        + config.pll.encoded() + Command::VCMDCSetting(0x0A).encoded()
        + Command::ResolutionSetting(config.dimensions.cols, config.dimensions.rows).encoded()
}

/// The exact byte stream of the power-down prologue that precedes deep
/// sleep.
pub open spec fn power_down_sequence() -> Seq<u8> {
    Command::VCOMDataIntervalSetting(0x0, DataPolarity::BWOnly, DataInterval::V10).encoded()
        + Command::VCMDCSetting(0x00).encoded() + Command::PowerOff.encoded()
}

/// A configured display driven through a [`DisplayInterface`].
pub struct Display<I> where I: DisplayInterface {
    pub interface: I,
    pub config: Config,
    /// Where in the reset/active/sleep lifecycle the controller stands.
    pub state: Ghost<LifecycleState>,
}

impl<I> Display<I> where I: DisplayInterface {
    /// Create a new display from an interface and a configuration, with the
    /// controller not yet initialized.
    pub fn new(interface: I, config: Config) -> (r: Display<I>)
        requires
            config.wf(),
        ensures
            r.interface == interface,
            r.config == config,
            r.state@ == LifecycleState::Uninitialized,
    {
        Display { interface, config, state: Ghost(LifecycleState::Uninitialized) }
    }

    /// Perform a hardware reset, then initialize the controller. This is the
    /// only way to reach the `Active` state, and it also wakes a controller
    /// that entered deep sleep. On success the controller has observed
    /// exactly the mandated initialization sequence.
    pub fn reset<D: Delay>(&mut self, delay: &mut D) -> (r: Result<(), I::Error>)
        requires
            old(self).config.wf(),
        ensures
            final(self).config == old(self).config,
            final(self).interface.supports_host_buffer() == old(
                self,
            ).interface.supports_host_buffer(),
            final(self).interface.supports_sram() == old(self).interface.supports_sram(),
            final(self).interface.obeys_sram_model() == old(self).interface.obeys_sram_model(),
            final(self).interface.sram() == old(self).interface.sram(),
            r is Ok ==> final(self).interface.log() == old(self).interface.log() + init_sequence(
                old(self).config,
            ),
            r is Ok ==> final(self).state@ == LifecycleState::Active,
            r is Err ==> final(self).state@ == LifecycleState::Uninitialized,
    {
        self.interface.reset(delay);
        self.state = Ghost(LifecycleState::Uninitialized);
        match self.init(delay) {
            Ok(()) => {
                self.state = Ghost(LifecycleState::Active);
                Ok(())
            },
            Err(e) => Err(e),
        }
    }

    /// Run the mandated initialization sequence, with the controller's two
    /// settle times in the middle.
    fn init<D: Delay>(&mut self, delay: &mut D) -> (r: Result<(), I::Error>)
        requires
            old(self).config.wf(),
        ensures
            final(self).config == old(self).config,
            final(self).state == old(self).state,
            final(self).interface.supports_host_buffer() == old(
                self,
            ).interface.supports_host_buffer(),
            final(self).interface.supports_sram() == old(self).interface.supports_sram(),
            final(self).interface.obeys_sram_model() == old(self).interface.obeys_sram_model(),
            final(self).interface.sram() == old(self).interface.sram(),
            r is Ok ==> final(self).interface.log() == old(self).interface.log() + init_sequence(
                old(self).config,
            ),
    {
        let ghost l0 = self.interface.log();
        let power_setting = self.config.power_setting;
        power_setting.execute(&mut self.interface)?;
        let booster = self.config.booster_soft_start;
        booster.execute(&mut self.interface)?;
        Command::PowerOn.execute(&mut self.interface)?;
        delay.delay_ms(200);
        let panel_setting = self.config.panel_setting;
        panel_setting.execute(&mut self.interface)?;
        Command::VCOMDataIntervalSetting(0x0, DataPolarity::Both, DataInterval::V10).execute(
            &mut self.interface,
        )?;
        let pll = self.config.pll;
        pll.execute(&mut self.interface)?;
        Command::VCMDCSetting(0x0A).execute(&mut self.interface)?;
        delay.delay_ms(20);
        Command::ResolutionSetting(self.config.dimensions.cols, self.config.dimensions.rows)
            .execute(&mut self.interface)?;
        proof {
            assert(self.interface.log() =~= l0 + init_sequence(self.config));
        }
        Ok(())
    }

    /// Kick off a display refresh from the plane data transmitted so far.
    pub fn signal_update(&mut self) -> (r: Result<(), I::Error>)
        requires
            old(self).state@ == LifecycleState::Active,
        ensures
            final(self).config == old(self).config,
            final(self).state == old(self).state,
            final(self).interface.supports_host_buffer() == old(
                self,
            ).interface.supports_host_buffer(),
            final(self).interface.supports_sram() == old(self).interface.supports_sram(),
            final(self).interface.obeys_sram_model() == old(self).interface.obeys_sram_model(),
            final(self).interface.sram() == old(self).interface.sram(),
            r is Ok ==> final(self).interface.log() == old(self).interface.log()
                + Command::DisplayRefresh.encoded(),
    {
        Command::DisplayRefresh.execute(&mut self.interface)
    }

    /// Wait for the controller to go idle, then run the power-down prologue.
    fn power_down(&mut self) -> (r: Result<(), I::Error>)
        ensures
            final(self).config == old(self).config,
            final(self).state == old(self).state,
            final(self).interface.supports_host_buffer() == old(
                self,
            ).interface.supports_host_buffer(),
            final(self).interface.supports_sram() == old(self).interface.supports_sram(),
            final(self).interface.obeys_sram_model() == old(self).interface.obeys_sram_model(),
            final(self).interface.sram() == old(self).interface.sram(),
            r is Ok ==> final(self).interface.log() == old(self).interface.log()
                + power_down_sequence(),
    {
        let ghost l0 = self.interface.log();
        self.interface.busy_wait();
        Command::VCOMDataIntervalSetting(0x0, DataPolarity::BWOnly, DataInterval::V10).execute(
            &mut self.interface,
        )?;
        Command::VCMDCSetting(0x00).execute(&mut self.interface)?;
        let r = Command::PowerOff.execute(&mut self.interface);
        proof {
            if r is Ok {
                assert(self.interface.log() =~= l0 + power_down_sequence());
            }
        }
        r
    }

    /// Enter deep sleep: power down, then send the deep-sleep command with
    /// its fixed check byte. Only a reset wakes the controller afterwards.
    pub fn deep_sleep(&mut self) -> (r: Result<(), I::Error>)
        requires
            old(self).state@ == LifecycleState::Active,
        ensures
            final(self).config == old(self).config,
            final(self).interface.supports_host_buffer() == old(
                self,
            ).interface.supports_host_buffer(),
            final(self).interface.supports_sram() == old(self).interface.supports_sram(),
            final(self).interface.obeys_sram_model() == old(self).interface.obeys_sram_model(),
            final(self).interface.sram() == old(self).interface.sram(),
            r is Ok ==> final(self).interface.log() == old(self).interface.log()
                + power_down_sequence() + Command::DeepSleep.encoded(),
            r is Ok ==> final(self).state@ == LifecycleState::Sleeping,
            r is Err ==> final(self).state@ == LifecycleState::Uninitialized,
    {
        self.state = Ghost(LifecycleState::Uninitialized);
        match self.power_down() {
            Ok(()) => {},
            Err(e) => {
                return Err(e);
            },
        }
        match Command::DeepSleep.execute(&mut self.interface) {
            Ok(()) => {
                self.state = Ghost(LifecycleState::Sleeping);
                Ok(())
            },
            Err(e) => Err(e),
        }
    }

    /// The number of rows the display has.
    pub fn rows(&self) -> (r: u16)
        ensures
            r == self.config.dimensions.rows,
    {
        self.config.dimensions.rows
    }

    /// The number of columns the display has.
    pub fn cols(&self) -> (r: u8)
        ensures
            r == self.config.dimensions.cols,
    {
        self.config.dimensions.cols
    }

    /// The rotation the display was configured with.
    pub fn rotation(&self) -> (r: Rotation)
        ensures
            r == self.config.rotation,
    {
        self.config.rotation
    }

    /// The hardware interface, for plane transmission.
    pub fn interface(&mut self) -> (r: &mut I)
        ensures
            *r == old(self).interface,
            final(self).interface == *final(r),
            final(self).config == old(self).config,
            final(self).state == old(self).state,
    {
        &mut self.interface
    }
}

} // verus!
