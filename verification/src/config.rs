//! Checks on a field's configuration, made before anything is built from it.

use vstd::prelude::*;

verus! {

/// Why a configuration cannot be rendered.
#[derive(Clone, Copy, Debug, PartialEq, Eq, Structural)]
pub enum ConfigError {
    /// The canvas has no columns.
    ZeroWidth,
    /// The canvas has no rows.
    ZeroHeight,
    /// The field has no source.
    NoSources,
    /// The sources need more uniform slots than the shader offers.
    TooManySources,
    /// The pixel buffer would be longer than the machine can address.
    FrameTooLarge,
}

impl ConfigError {
    /// The text of [`ConfigError::message`].
    pub open spec fn spec_message(self) -> Seq<char> {
        match self {
            ConfigError::ZeroWidth => "the canvas width must not be zero"@,
            ConfigError::ZeroHeight => "the canvas height must not be zero"@,
            ConfigError::NoSources => "the field needs at least one source"@,
            ConfigError::TooManySources => "the sources exceed the shader's uniform capacity"@,
            ConfigError::FrameTooLarge => "the pixel buffer exceeds the addressable size"@,
        }
    }

    /// A sentence that tells the host what is wrong with the configuration.
    pub fn message(&self) -> (m: &'static str)
        ensures
            m@ == self.spec_message(),
    {
        match self {
            ConfigError::ZeroWidth => "the canvas width must not be zero",
            ConfigError::ZeroHeight => "the canvas height must not be zero",
            ConfigError::NoSources => "the field needs at least one source",
            ConfigError::TooManySources => "the sources exceed the shader's uniform capacity",
            ConfigError::FrameTooLarge => "the pixel buffer exceeds the addressable size",
        }
    }
}

/// Accepts a field of `num_sources` sources on a `width` by `height` canvas,
/// or names the first thing wrong with it: the width is checked first, then
/// the height, then the number of sources.
pub fn check_field(width: u32, height: u32, num_sources: u32) -> (r: Result<(), ConfigError>)
    ensures
        r is Ok <==> width > 0 && height > 0 && num_sources > 0,
        r == Err::<(), ConfigError>(ConfigError::ZeroWidth) <==> width == 0,
        r == Err::<(), ConfigError>(ConfigError::ZeroHeight) <==> width > 0 && height == 0,
        r == Err::<(), ConfigError>(ConfigError::NoSources) <==> width > 0 && height > 0
            && num_sources == 0,
{
    if width == 0 {
        Err(ConfigError::ZeroWidth)
    } else if height == 0 {
        Err(ConfigError::ZeroHeight)
    } else if num_sources == 0 {
        Err(ConfigError::NoSources)
    } else {
        Ok(())
    }
}

} // verus!
