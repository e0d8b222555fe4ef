//! A staged builder for `Configuration`. Each required field has a type
//! parameter that is `()` while the field is unset and the field's own type
//! once it is set. A setter exists only on builders whose field is unset, and
//! `build` only on the builder whose three fields are set, so an incomplete
//! configuration cannot be obtained and no field can be supplied twice.
use vstd::prelude::*;

use crate::configuration::{Configuration, ConfigurationModel, Debugging, Filename, Profile, Source};

verus! {

/// The fields collected so far; `P`, `D` and `S` track the profile, the
/// debugging setting and the source.
#[derive(Clone, Debug)]
pub struct ConfigurationBuilder<P, D, S> {
    profile: P,
    debugging: D,
    source: S,
    filename: Filename,
}

impl<P, D, S> ConfigurationBuilder<P, D, S> {
    pub closed spec fn spec_profile(&self) -> P {
        self.profile
    }

    pub closed spec fn spec_debugging(&self) -> D {
        self.debugging
    }

    pub closed spec fn spec_source(&self) -> S {
        self.source
    }

    pub closed spec fn spec_filename(&self) -> Option<Seq<char>> {
        self.filename@
    }

    /// The builder with the filename set to `filename`.
    pub closed spec fn with_filename(self, filename: Filename) -> ConfigurationBuilder<P, D, S> {
        ConfigurationBuilder {
            profile: self.profile,
            debugging: self.debugging,
            source: self.source,
            filename,
        }
    }

    /// Names the compilation unit. Optional, and may be given in any state.
    pub fn filename(self, filename: Filename) -> (r: ConfigurationBuilder<P, D, S>)
        ensures
            r == self.with_filename(filename),
            r.spec_profile() == self.spec_profile(),
            r.spec_debugging() == self.spec_debugging(),
            r.spec_source() == self.spec_source(),
            r.spec_filename() == filename@,
    {
        ConfigurationBuilder {
            profile: self.profile,
            debugging: self.debugging,
            source: self.source,
            filename,
        }
    }
}

impl ConfigurationBuilder<(), (), ()> {
    /// The builder with no field set.
    pub closed spec fn spec_init() -> ConfigurationBuilder<(), (), ()> {
        ConfigurationBuilder { profile: (), debugging: (), source: (), filename: Filename::Unspecified }
    }

    /// Starts a builder with no field set and no filename.
    #[must_use]
    pub fn init() -> (r: Self)
        ensures
            r == Self::spec_init(),
            r.spec_filename() == None::<Seq<char>>,
    {
        ConfigurationBuilder { profile: (), debugging: (), source: (), filename: Filename::Unspecified }
    }
}

impl<D, S> ConfigurationBuilder<(), D, S> {
    /// The builder with the profile set to `profile`.
    pub closed spec fn with_profile(self, profile: Profile) -> ConfigurationBuilder<Profile, D, S> {
        ConfigurationBuilder {
            profile,
            debugging: self.debugging,
            source: self.source,
            filename: self.filename,
        }
    }

    /// Sets the profile, which must not be set yet.
    pub fn profile(self, profile: Profile) -> (r: ConfigurationBuilder<Profile, D, S>)
        ensures
            r == self.with_profile(profile),
            r.spec_profile() == profile,
            r.spec_debugging() == self.spec_debugging(),
            r.spec_source() == self.spec_source(),
            r.spec_filename() == self.spec_filename(),
    {
        ConfigurationBuilder {
            profile,
            debugging: self.debugging,
            source: self.source,
            filename: self.filename,
        }
    }
}

impl<P, S> ConfigurationBuilder<P, (), S> {
    /// The builder with the debugging setting set to `debugging`.
    pub closed spec fn with_debugging(self, debugging: Debugging) -> ConfigurationBuilder<
        P,
        Debugging,
        S,
    > {
        ConfigurationBuilder {
            profile: self.profile,
            debugging,
            source: self.source,
            filename: self.filename,
        }
    }

    /// Sets the debugging setting, which must not be set yet.
    pub fn debugging(self, debugging: Debugging) -> (r: ConfigurationBuilder<P, Debugging, S>)
        ensures
            r == self.with_debugging(debugging),
            r.spec_profile() == self.spec_profile(),
            r.spec_debugging() == debugging,
            r.spec_source() == self.spec_source(),
            r.spec_filename() == self.spec_filename(),
    {
        ConfigurationBuilder {
            profile: self.profile,
            debugging,
            source: self.source,
            filename: self.filename,
        }
    }
}

impl<P, D> ConfigurationBuilder<P, D, ()> {
    /// The builder with the source set to `source`.
    pub closed spec fn with_source(self, source: Source) -> ConfigurationBuilder<P, D, Source> {
        ConfigurationBuilder {
            profile: self.profile,
            debugging: self.debugging,
            source,
            filename: self.filename,
        }
    }

    /// Sets the source text, which must not be set yet.
    pub fn source(self, source: Source) -> (r: ConfigurationBuilder<P, D, Source>)
        ensures
            r == self.with_source(source),
            r.spec_profile() == self.spec_profile(),
            r.spec_debugging() == self.spec_debugging(),
            r.spec_source() == source,
            r.spec_filename() == self.spec_filename(),
    {
        ConfigurationBuilder {
            profile: self.profile,
            debugging: self.debugging,
            source,
            filename: self.filename,
        }
    }
}

impl ConfigurationBuilder<Profile, Debugging, Source> {
    /// The configuration that a complete builder yields.
    pub closed spec fn spec_build(self) -> ConfigurationModel {
        ConfigurationModel {
            profile: self.profile,
            debugging: self.debugging,
            source: self.source@,
            filename: self.filename@,
        }
    }

    /// Yields the configuration holding exactly the supplied values.
    #[must_use]
    pub fn build(self) -> (r: Configuration)
        ensures
            r@ == self.spec_build(),
            r@.profile == self.spec_profile(),
            r@.debugging == self.spec_debugging(),
            r@.source == self.spec_source()@,
            r@.filename == self.spec_filename(),
    {
        let ConfigurationBuilder { profile, debugging, source, filename } = self;
        Configuration::new(profile, debugging, source, filename)
    }
}

/// Whatever order the three setters are called in after `init`, they leave the
/// builder in one and the same state, and the configuration built from it holds
/// exactly the supplied profile, debugging setting and source, with no filename.
pub proof fn lemma_setter_order_irrelevant(profile: Profile, debugging: Debugging, source: Source)
    ensures
        ({
            let init = ConfigurationBuilder::spec_init();
            let b = init.with_profile(profile).with_debugging(debugging).with_source(source);
            &&& b == init.with_profile(profile).with_source(source).with_debugging(debugging)
            &&& b == init.with_debugging(debugging).with_profile(profile).with_source(source)
            &&& b == init.with_debugging(debugging).with_source(source).with_profile(profile)
            &&& b == init.with_source(source).with_profile(profile).with_debugging(debugging)
            &&& b == init.with_source(source).with_debugging(debugging).with_profile(profile)
            &&& b.spec_build() == (ConfigurationModel {
                profile,
                debugging,
                source: source@,
                filename: None,
            })
        }),
{
}

} // verus!
