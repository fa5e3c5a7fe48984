//! Configuration files: their declared format and where they lie.

use crate::error::ErrorKind;
use crate::error::LaunchError;
use vstd::prelude::*;

verus! {

/// The declared format of a configuration file.
#[derive(Clone, Copy, Debug, PartialEq, Eq, Structural)]
pub enum ConfigType {
    Json,
}

impl ConfigType {
    /// The name under which the format is selected.
    pub open spec fn name(self) -> Seq<char> {
        match self {
            ConfigType::Json => "JSON"@,
        }
    }

    /// The format selected by `name`, if any is.
    pub open spec fn named(name: Seq<char>) -> Option<ConfigType> {
        if name == ConfigType::Json.name() {
            Some(ConfigType::Json)
        } else {
            None
        }
    }

    pub fn as_str(&self) -> (name: &'static str)
        ensures
            name@ == self.name(),
    {
        match self {
            Self::Json => "JSON",
        }
    }

    /// Recognises a format by its exact name. Any other name is a
    /// configuration error whose detail is the rejected name.
    pub fn parse(name: &str) -> (format: Result<ConfigType, LaunchError>)
        ensures
            match format {
                Ok(t) => Self::named(name@) == Some(t),
                Err(e) => Self::named(name@) is None && e@ == (crate::error::LaunchErrorView {
                    kind: ErrorKind::ConfigParse,
                    detail: name@,
                }),
            },
    {
        let given = name.to_owned();
        let json = ConfigType::Json.as_str().to_owned();
        if given == json {
            Ok(ConfigType::Json)
        } else {
            Err(LaunchError::new(ErrorKind::ConfigParse, given))
        }
    }
}

/// Every format is recognised by the name it reports.
pub proof fn lemma_name_round_trip(format: ConfigType)
    ensures
        ConfigType::named(format.name()) == Some(format),
{
}

/// A configuration record as the launcher holds it: the file it is read
/// from and the format it is declared in. What the record says is the
/// business of the module that defines it.
#[derive(Clone, Debug, PartialEq, Eq)]
pub struct ServiceConfiguration {
    pub path: String,
    pub format: ConfigType,
}

/// The mathematical value of a [`ServiceConfiguration`].
pub struct ServiceConfigurationView {
    pub path: Seq<char>,
    pub format: ConfigType,
}

impl View for ServiceConfiguration {
    type V = ServiceConfigurationView;

    open spec fn view(&self) -> ServiceConfigurationView {
        ServiceConfigurationView { path: self.path@, format: self.format }
    }
}

impl ServiceConfiguration {
    pub fn new(path: &str, format: ConfigType) -> (configuration: Self)
        ensures
            configuration@ == (ServiceConfigurationView { path: path@, format }),
    {
        ServiceConfiguration { path: path.to_owned(), format }
    }

    /// A copy that names the same file and format.
    pub fn duplicate(&self) -> (copy: Self)
        ensures
            copy@ == self@,
    {
        ServiceConfiguration { path: self.path.clone(), format: self.format }
    }
}

} // verus!
