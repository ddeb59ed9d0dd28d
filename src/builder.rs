//! Building a boot header from defaults and a few chosen values.

use crate::clock::ClockConfig;
use crate::cpu::Cpu;
use crate::error::BuilderError;
use crate::firmware::Firmware;
use crate::flash::FlashConfig;
use vstd::prelude::*;

verus! {

/// The entry point of a built header when none is given.
pub const DEFAULT_ENTRY_POINT: u32 = 0x2100_0000;

/// Collects the values of a header to be built. The flash configuration has
/// no default and must be set; everything else falls back to a default.
pub struct FirmwareBuilder {
    /// The entry point of the firmware image.
    entry_point: Option<u32>,
    /// Flash configuration.
    flash_config: Option<FlashConfig>,
}

impl View for FirmwareBuilder {
    /// The entry point and the flash configuration set so far.
    type V = (Option<u32>, Option<FlashConfig>);

    closed spec fn view(&self) -> (Option<u32>, Option<FlashConfig>) {
        (self.entry_point, self.flash_config)
    }
}

impl Firmware {
    /// Whether `self` is the header built from an entry point `entry_point`
    /// and the flash configuration `flash_config`, all else at its default.
    pub open spec fn is_built_from(&self, entry_point: u32, flash_config: FlashConfig) -> bool {
        &&& self.cpu == Cpu::Cpu0
        &&& self.revision == 1
        &&& self.flash_config == flash_config
        &&& self.clock_config.is_zeroed()
        &&& self.boot_config == 0
        &&& self.image_segment_info == 0
        &&& self.entry_point == entry_point
        &&& self.image_start == 0
        &&& self.hash@ == Seq::new(32, |i: int| 0u8)
        &&& self.crc32 == 0
    }
}

impl FirmwareBuilder {
    /// Sets the firmware's entry point to `entry_point`.
    pub fn entry_point(&mut self, entry_point: u32) -> (r: &mut FirmwareBuilder)
        ensures
            r@ == (Some(entry_point), old(self)@.1),
            final(self)@ == final(r)@,
    {
        self.entry_point = Some(entry_point);
        self
    }

    /// Sets the flash configuration to `flash_config`.
    pub fn flash_config(&mut self, flash_config: FlashConfig) -> (r: &mut FirmwareBuilder)
        ensures
            r@ == (old(self)@.0, Some(flash_config)),
            final(self)@ == final(r)@,
    {
        self.flash_config = Some(flash_config);
        self
    }

    /// Builds the header: fails when no flash configuration was set, and
    /// uses `DEFAULT_ENTRY_POINT` when no entry point was.
    pub fn build(&self) -> (r: Result<Firmware, BuilderError>)
        ensures
            r is Err <==> self@.1 is None,
            r is Err ==> r->Err_0 == BuilderError::MissingFlashConfig,
            r is Ok ==> r->Ok_0.is_built_from(
                match self@.0 {
                    Some(e) => e,
                    None => DEFAULT_ENTRY_POINT,
                },
                self@.1->Some_0,
            ),
    {
        let entry_point = match self.entry_point {
            Some(e) => e,
            None => DEFAULT_ENTRY_POINT,
        };
        let flash_config = match self.flash_config {
            Some(flash_config) => flash_config,
            None => return Err(BuilderError::MissingFlashConfig),
        };
        let hash = [0u8; 32];
        assert(hash@ =~= Seq::new(32, |i: int| 0u8));
        Ok(
            Firmware {
                cpu: Cpu::Cpu0,
                revision: 1,
                flash_config,
                clock_config: ClockConfig::default(),
                boot_config: 0,
                image_segment_info: 0,
                entry_point,
                image_start: 0,
                hash,
                crc32: 0,
            },
        )
    }
}

impl Default for FirmwareBuilder {
    fn default() -> (r: FirmwareBuilder)
        ensures
            r@ == (None::<u32>, None::<FlashConfig>),
    {
        FirmwareBuilder { entry_point: None, flash_config: None }
    }
}

} // verus!
