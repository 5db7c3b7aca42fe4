//! The settings store: typed get/set accessors for the persisted user
//! preferences that the menu screens read and write.
//!
//! The store is a plain record owned by the game state; screens read it when
//! they are activated and the click interpreter writes it. All accessors are
//! total: every key always has a value.

use vstd::prelude::*;

verus! {

/// A boolean preference key.
#[derive(Clone, Copy, PartialEq, Eq, Structural, Debug)]
pub enum BoolSetting {
    Vsync,
    HatVisible,
    JacketVisible,
    CapeVisible,
    RightSleeveVisible,
    LeftSleeveVisible,
    RightPantsVisible,
    LeftPantsVisible,
}

/// An integer preference key.
#[derive(Clone, Copy, PartialEq, Eq, Structural, Debug)]
pub enum IntSetting {
    MaxFps,
    Fov,
}

/// A fractional preference key. Values are fixed-point, in hundredths, so
/// that the store holds only integers.
#[derive(Clone, Copy, PartialEq, Eq, Structural, Debug)]
pub enum FloatSetting {
    MouseSense,
}

/// The persisted user preferences, one field per key.
#[derive(Clone, Copy, PartialEq, Eq, Structural, Debug)]
pub struct SettingStore {
    pub vsync: bool,
    pub hat_visible: bool,
    pub jacket_visible: bool,
    pub cape_visible: bool,
    pub right_sleeve_visible: bool,
    pub left_sleeve_visible: bool,
    pub right_pants_visible: bool,
    pub left_pants_visible: bool,
    pub max_fps: i32,
    pub fov: i32,
    /// Mouse sensitivity, in hundredths (a stored 150 means 1.50).
    pub mouse_sense: i64,
}

impl SettingStore {
    /// The value of a boolean key, as a spec-level lookup.
    pub open spec fn spec_bool(self, key: BoolSetting) -> bool {
        match key {
            BoolSetting::Vsync => self.vsync,
            BoolSetting::HatVisible => self.hat_visible,
            BoolSetting::JacketVisible => self.jacket_visible,
            BoolSetting::CapeVisible => self.cape_visible,
            BoolSetting::RightSleeveVisible => self.right_sleeve_visible,
            BoolSetting::LeftSleeveVisible => self.left_sleeve_visible,
            BoolSetting::RightPantsVisible => self.right_pants_visible,
            BoolSetting::LeftPantsVisible => self.left_pants_visible,
        }
    }

    /// The value of an integer key, as a spec-level lookup.
    pub open spec fn spec_int(self, key: IntSetting) -> i32 {
        match key {
            IntSetting::MaxFps => self.max_fps,
            IntSetting::Fov => self.fov,
        }
    }

    /// The value of a fractional key, in hundredths, as a spec-level lookup.
    pub open spec fn spec_float(self, key: FloatSetting) -> i64 {
        match key {
            FloatSetting::MouseSense => self.mouse_sense,
        }
    }

    /// The store with one boolean key set and everything else unchanged.
    pub open spec fn with_bool(self, key: BoolSetting, value: bool) -> SettingStore {
        match key {
            BoolSetting::Vsync => SettingStore { vsync: value, ..self },
            BoolSetting::HatVisible => SettingStore { hat_visible: value, ..self },
            BoolSetting::JacketVisible => SettingStore { jacket_visible: value, ..self },
            BoolSetting::CapeVisible => SettingStore { cape_visible: value, ..self },
            BoolSetting::RightSleeveVisible => SettingStore { right_sleeve_visible: value, ..self },
            BoolSetting::LeftSleeveVisible => SettingStore { left_sleeve_visible: value, ..self },
            BoolSetting::RightPantsVisible => SettingStore { right_pants_visible: value, ..self },
            BoolSetting::LeftPantsVisible => SettingStore { left_pants_visible: value, ..self },
        }
    }

    /// The store with one integer key set and everything else unchanged.
    pub open spec fn with_int(self, key: IntSetting, value: i32) -> SettingStore {
        match key {
            IntSetting::MaxFps => SettingStore { max_fps: value, ..self },
            IntSetting::Fov => SettingStore { fov: value, ..self },
        }
    }

    /// The store with one fractional key set and everything else unchanged.
    pub open spec fn with_float(self, key: FloatSetting, value: i64) -> SettingStore {
        match key {
            FloatSetting::MouseSense => SettingStore { mouse_sense: value, ..self },
        }
    }

    /// Reads a boolean preference.
    pub fn get_bool(&self, key: BoolSetting) -> (r: bool)
        ensures
            r == self.spec_bool(key),
    {
        match key {
            BoolSetting::Vsync => self.vsync,
            BoolSetting::HatVisible => self.hat_visible,
            BoolSetting::JacketVisible => self.jacket_visible,
            BoolSetting::CapeVisible => self.cape_visible,
            BoolSetting::RightSleeveVisible => self.right_sleeve_visible,
            BoolSetting::LeftSleeveVisible => self.left_sleeve_visible,
            BoolSetting::RightPantsVisible => self.right_pants_visible,
            BoolSetting::LeftPantsVisible => self.left_pants_visible,
        }
    }

    /// Writes a boolean preference.
    pub fn set_bool(&mut self, key: BoolSetting, value: bool)
        ensures
            *final(self) == old(self).with_bool(key, value),
    {
        match key {
            BoolSetting::Vsync => self.vsync = value,
            BoolSetting::HatVisible => self.hat_visible = value,
            BoolSetting::JacketVisible => self.jacket_visible = value,
            BoolSetting::CapeVisible => self.cape_visible = value,
            BoolSetting::RightSleeveVisible => self.right_sleeve_visible = value,
            BoolSetting::LeftSleeveVisible => self.left_sleeve_visible = value,
            BoolSetting::RightPantsVisible => self.right_pants_visible = value,
            BoolSetting::LeftPantsVisible => self.left_pants_visible = value,
        }
    }

    /// Reads an integer preference.
    pub fn get_int(&self, key: IntSetting) -> (r: i32)
        ensures
            r == self.spec_int(key),
    {
        match key {
            IntSetting::MaxFps => self.max_fps,
            IntSetting::Fov => self.fov,
        }
    }

    /// Writes an integer preference.
    pub fn set_int(&mut self, key: IntSetting, value: i32)
        ensures
            *final(self) == old(self).with_int(key, value),
    {
        match key {
            IntSetting::MaxFps => self.max_fps = value,
            IntSetting::Fov => self.fov = value,
        }
    }

    /// Reads a fractional preference, in hundredths.
    pub fn get_float(&self, key: FloatSetting) -> (r: i64)
        ensures
            r == self.spec_float(key),
    {
        match key {
            FloatSetting::MouseSense => self.mouse_sense,
        }
    }

    /// Writes a fractional preference, in hundredths.
    pub fn set_float(&mut self, key: FloatSetting, value: i64)
        ensures
            *final(self) == old(self).with_float(key, value),
    {
        match key {
            FloatSetting::MouseSense => self.mouse_sense = value,
        }
    }
}

} // verus!
