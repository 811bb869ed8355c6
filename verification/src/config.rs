//! Validated configuration of a display.
use crate::basic_display::{Dimensions, Rotation};
use vstd::prelude::*;

verus! {

/// Collects the settings of a display before they are validated.
pub struct Builder {
    dimensions: Option<Dimensions>,
    rotation: Rotation,
    auto_update: bool,
}

/// Settings of a display: always holds dimensions that the controller can
/// drive.
pub struct Config {
    pub(crate) dimensions: Dimensions,
    pub(crate) rotation: Rotation,
    pub(crate) auto_update: bool,
}

/// The builder held no dimensions, or dimensions that the controller cannot
/// drive.
#[derive(Debug)]
pub struct BuilderError {}

impl Default for Builder {
    fn default() -> (b: Self)
        ensures
            b.spec_dimensions() is None,
            b.spec_rotation() == Rotation::Rotate0,
            b.spec_auto_update(),
    {
        Builder { dimensions: None, rotation: Rotation::default(), auto_update: true }
    }
}

impl Builder {
    /// The dimensions given so far, if any.
    pub closed spec fn spec_dimensions(&self) -> Option<Dimensions> {
        self.dimensions
    }

    /// The rotation that a configuration built now would have.
    pub closed spec fn spec_rotation(&self) -> Rotation {
        self.rotation
    }

    /// Whether a configuration built now would refresh the panel after every
    /// drawing operation.
    pub closed spec fn spec_auto_update(&self) -> bool {
        self.auto_update
    }

    /// A builder without dimensions, without rotation and with automatic
    /// refresh switched on.
    pub fn new() -> (b: Self)
        ensures
            b.spec_dimensions() is None,
            b.spec_rotation() == Rotation::Rotate0,
            b.spec_auto_update(),
    {
        Builder::default()
    }

    /// Sets the native dimensions of the panel. There is no default:
    /// [`Builder::build`] fails unless valid dimensions were given.
    pub fn dimensions(self, dimensions: Dimensions) -> (b: Self)
        ensures
            b.spec_dimensions() == Some(dimensions),
            b.spec_rotation() == self.spec_rotation(),
            b.spec_auto_update() == self.spec_auto_update(),
    {
        Builder {
            dimensions: Some(dimensions),
            rotation: self.rotation,
            auto_update: self.auto_update,
        }
    }

    /// Sets the rotation of the logical image.
    pub fn rotation(self, rotation: Rotation) -> (b: Self)
        ensures
            b.spec_dimensions() == self.spec_dimensions(),
            b.spec_rotation() == rotation,
            b.spec_auto_update() == self.spec_auto_update(),
    {
        Builder { dimensions: self.dimensions, rotation, auto_update: self.auto_update }
    }

    /// Chooses whether drawing operations refresh the panel by themselves.
    pub fn auto_update(self, enabled: bool) -> (b: Self)
        ensures
            b.spec_dimensions() == self.spec_dimensions(),
            b.spec_rotation() == self.spec_rotation(),
            b.spec_auto_update() == enabled,
    {
        Builder { dimensions: self.dimensions, rotation: self.rotation, auto_update: enabled }
    }

    /// Validates the settings. Succeeds exactly when dimensions were given
    /// and the controller can drive them.
    pub fn build(self) -> (r: Result<Config, BuilderError>)
        ensures
            r is Ok <==> (self.spec_dimensions() matches Some(d) && d.valid()),
            r matches Ok(config) ==> Some(config.spec_dimensions()) == self.spec_dimensions(),
            r matches Ok(config) ==> config.spec_rotation() == self.spec_rotation(),
            r matches Ok(config) ==> config.spec_auto_update() == self.spec_auto_update(),
    {
        match self.dimensions {
            Some(dimensions) => {
                if dimensions.is_valid() {
                    Ok(
                        Config {
                            dimensions,
                            rotation: self.rotation,
                            auto_update: self.auto_update,
                        },
                    )
                } else {
                    Err(BuilderError {  })
                }
            },
            None => Err(BuilderError {  }),
        }
    }
}

impl Config {
    /// Every configuration holds dimensions that the controller can drive.
    #[verifier::type_invariant]
    spec fn inv(&self) -> bool {
        self.dimensions.valid()
    }

    /// Native dimensions of the panel.
    pub closed spec fn spec_dimensions(&self) -> Dimensions {
        self.dimensions
    }

    /// Rotation of the logical image.
    pub closed spec fn spec_rotation(&self) -> Rotation {
        self.rotation
    }

    /// Whether drawing operations refresh the panel by themselves.
    pub closed spec fn spec_auto_update(&self) -> bool {
        self.auto_update
    }

    /// Native dimensions of the panel.
    #[verifier::when_used_as_spec(spec_dimensions)]
    pub fn dimensions(&self) -> (d: Dimensions)
        ensures
            d == self.spec_dimensions(),
            d.valid(),
    {
        proof {
            use_type_invariant(self);
        }
        self.dimensions
    }

    /// Rotation of the logical image.
    #[verifier::when_used_as_spec(spec_rotation)]
    pub fn rotation(&self) -> (r: Rotation)
        ensures
            r == self.spec_rotation(),
    {
        self.rotation
    }

    /// Whether drawing operations refresh the panel by themselves.
    #[verifier::when_used_as_spec(spec_auto_update)]
    pub fn auto_update(&self) -> (on: bool)
        ensures
            on == self.spec_auto_update(),
    {
        self.auto_update
    }
}

} // verus!
