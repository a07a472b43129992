use vstd::prelude::*;

use crate::command::Command;
use crate::command::DisplayResolution;
use crate::display::Dimensions;
use crate::display::Rotation;

verus! {

/// Builder for constructing a display [`Config`].
///
/// Dimensions must be supplied; every other setting has a default.
pub struct Builder {
    pub power_setting: Command,
    pub booster_soft_start: Command,
    pub panel_setting: Command,
    pub pll: Command,
    pub dimensions: Option<Dimensions>,
    pub rotation: Rotation,
}

/// Error returned when a configuration is built without dimensions.
#[derive(Debug, PartialEq, Eq, Structural)]
pub struct BuilderError {}

/// Display configuration: the four driving commands, the panel dimensions
/// and the rotation. Built once through [`Builder`] and never mutated.
pub struct Config {
    pub power_setting: Command,
    pub booster_soft_start: Command,
    pub panel_setting: Command,
    pub pll: Command,
    pub dimensions: Dimensions,
    pub rotation: Rotation,
}

impl Config {
    /// Each stored command is of the intended kind, meets the controller's
    /// argument bounds, and the dimensions are within the panel limits.
    pub open spec fn wf(self) -> bool {
        &&& self.power_setting matches Command::PowerSetting(..)
        &&& self.power_setting.wf()
        &&& self.booster_soft_start matches Command::BoosterSoftStart(..)
        &&& self.panel_setting matches Command::PanelSetting(_)
        &&& self.pll matches Command::PLLControl(_)
        &&& self.dimensions.wf()
    }
}

impl Builder {
    /// As [`Config::wf`], with the dimensions still optional.
    pub open spec fn wf(self) -> bool {
        &&& self.power_setting matches Command::PowerSetting(..)
        &&& self.power_setting.wf()
        &&& self.booster_soft_start matches Command::BoosterSoftStart(..)
        &&& self.panel_setting matches Command::PanelSetting(_)
        &&& self.pll matches Command::PLLControl(_)
        &&& (self.dimensions matches Some(d) ==> d.wf())
    }
}

impl Default for Builder {
    /// The default driving parameters: power 0x2B/0x2B/0x09, booster
    /// 0x17/0x17/0x17, the 160x296 panel class, PLL byte 0x29, no
    /// dimensions, no rotation.
    fn default() -> (r: Builder)
        ensures
            r.power_setting == Command::PowerSetting(0x2B, 0x2B, 0x09),
            r.booster_soft_start == Command::BoosterSoftStart(0x17, 0x17, 0x17),
            r.panel_setting == Command::PanelSetting(DisplayResolution::R160x296),
            r.pll == Command::PLLControl(0x29),
            r.dimensions is None,
            r.rotation == Rotation::Rotate0,
            r.wf(),
    {
        Builder {
            power_setting: Command::PowerSetting(0x2B, 0x2B, 0x09),
            booster_soft_start: Command::BoosterSoftStart(0x17, 0x17, 0x17),
            panel_setting: Command::PanelSetting(DisplayResolution::R160x296),
            pll: Command::PLLControl(0x29),
            dimensions: None,
            rotation: Rotation::Rotate0,
        }
    }
}

impl Builder {
    /// Create a new Builder holding the default settings.
    pub fn new() -> (r: Builder)
        ensures
            r.power_setting == Command::PowerSetting(0x2B, 0x2B, 0x09),
            r.booster_soft_start == Command::BoosterSoftStart(0x17, 0x17, 0x17),
            r.panel_setting == Command::PanelSetting(DisplayResolution::R160x296),
            r.pll == Command::PLLControl(0x29),
            r.dimensions is None,
            r.rotation == Rotation::Rotate0,
            r.wf(),
    {
        Builder::default()
    }

    /// Set the panel resolution class. Defaults to 160x296.
    pub fn panel_setting(self, res: DisplayResolution) -> (r: Builder)
        ensures
            r == (Builder { panel_setting: Command::PanelSetting(res), ..self }),
    {
        Builder { panel_setting: Command::PanelSetting(res), ..self }
    }

    /// Set the driving voltages. Each is a 6-bit value. Defaults to
    /// 0x2B, 0x2B, 0x09.
    pub fn power_setting(self, vdh: u8, vdl: u8, vdhr: u8) -> (r: Builder)
        requires
            vdh < 64,
            vdl < 64,
            vdhr < 64,
        ensures
            r == (Builder { power_setting: Command::PowerSetting(vdh, vdl, vdhr), ..self }),
    {
        Builder { power_setting: Command::PowerSetting(vdh, vdl, vdhr), ..self }
    }

    /// Set the booster soft-start phases. Defaults to 0x17, 0x17, 0x17.
    pub fn booster_soft_start(self, vhh: u8, vhl: u8, vhgl: u8) -> (r: Builder)
        ensures
            r == (Builder { booster_soft_start: Command::BoosterSoftStart(vhh, vhl, vhgl), ..self }),
    {
        Builder { booster_soft_start: Command::BoosterSoftStart(vhh, vhl, vhgl), ..self }
    }

    /// Set the PLL clock byte. Defaults to 0x29.
    pub fn pll(self, value: u8) -> (r: Builder)
        ensures
            r == (Builder { pll: Command::PLLControl(value), ..self }),
    {
        Builder { pll: Command::PLLControl(value), ..self }
    }

    /// Set the display dimensions. There is no default: dimensions must be
    /// set for the builder to build a [`Config`]. Columns must be divisible
    /// by 8 and both sides must be within the panel limits; dimensions
    /// outside those bounds are rejected here, at configuration time.
    pub fn dimensions(self, dimensions: Dimensions) -> (r: Builder)
        requires
            dimensions.wf(),
        ensures
            r == (Builder { dimensions: Some(dimensions), ..self }),
    {
        Builder { dimensions: Some(dimensions), ..self }
    }

    /// Set the display rotation. Defaults to no rotation.
    pub fn rotation(self, rotation: Rotation) -> (r: Builder)
        ensures
            r == (Builder { rotation: rotation, ..self }),
    {
        Builder { rotation: rotation, ..self }
    }

    /// Build the display [`Config`]. Fails exactly when no dimensions were
    /// set; every configured setting is carried over unchanged.
    pub fn build(self) -> (r: Result<Config, BuilderError>)
        requires
            self.wf(),
        ensures
            r is Ok <==> self.dimensions is Some,
            r matches Ok(c) ==> {
                &&& c.power_setting == self.power_setting
                &&& c.booster_soft_start == self.booster_soft_start
                &&& c.panel_setting == self.panel_setting
                &&& c.pll == self.pll
                &&& Some(c.dimensions) == self.dimensions
                &&& c.rotation == self.rotation
                &&& c.wf()
            },
    {
        match self.dimensions {
            Some(dimensions) => Ok(
                Config {
                    power_setting: self.power_setting,
                    booster_soft_start: self.booster_soft_start,
                    panel_setting: self.panel_setting,
                    pll: self.pll,
                    dimensions,
                    rotation: self.rotation,
                },
            ),
            None => Err(BuilderError {}),
        }
    }
}

} // verus!
