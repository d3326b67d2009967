//! The immutable record that describes an interface before any hardware
//! object exists.

use vstd::prelude::*;
use vstd::utf8::encode_utf8;

verus! {

/// Bytes the network stack reserves for an interface's identity.
pub const IDENTITY_CAPACITY: usize = 32;

/// Bytes the network stack reserves for an interface's description.
pub const DESCRIPTION_CAPACITY: usize = 8;

/// Bytes the DHCP client reserves for the hostname hint.
pub const HOSTNAME_CAPACITY: usize = 30;

/// How the interface obtains its address.
#[derive(Clone, Copy, Debug, PartialEq, Eq, Structural)]
pub enum AddressingMode {
    /// Lease an address from a DHCP server.
    ClientDhcp,
    /// Use the address the platform was given.
    Static,
}

/// Why a configuration was refused.
#[derive(Clone, Copy, Debug, PartialEq, Eq, Structural)]
pub enum ConfigError {
    /// The identity needs more than `IDENTITY_CAPACITY` bytes.
    IdentityTooLong,
    /// The description needs more than `DESCRIPTION_CAPACITY` bytes.
    DescriptionTooLong,
    /// The hostname hint needs more than `HOSTNAME_CAPACITY` bytes.
    HostnameTooLong,
}

/// The number of bytes a text occupies once stored, which is its UTF-8 length.
pub open spec fn byte_len(text: Seq<char>) -> nat {
    encode_utf8(text).len()
}

/// What a configuration holds, as plain mathematical values.
pub struct ConfigurationView {
    pub identity: Seq<char>,
    pub description: Seq<char>,
    pub mac_override: Option<[u8; 6]>,
    pub mode: AddressingMode,
    pub hostname: Option<Seq<char>>,
}

/// The outcome of checking the given fields against the platform's bounds:
/// the first field that is too long decides the error, in the order identity,
/// description, hostname; otherwise the fields are kept as they are.
pub open spec fn checked_configuration(
    identity: Seq<char>,
    description: Seq<char>,
    mac_override: Option<[u8; 6]>,
    mode: AddressingMode,
    hostname: Option<Seq<char>>,
) -> Result<ConfigurationView, ConfigError> {
    if byte_len(identity) > IDENTITY_CAPACITY {
        Err(ConfigError::IdentityTooLong)
    } else if byte_len(description) > DESCRIPTION_CAPACITY {
        Err(ConfigError::DescriptionTooLong)
    } else if hostname is Some && byte_len(hostname->0) > HOSTNAME_CAPACITY {
        Err(ConfigError::HostnameTooLong)
    } else {
        Ok(ConfigurationView { identity, description, mac_override, mode, hostname })
    }
}

/// Fields within the bounds are accepted and kept verbatim: what is read
/// back from the configuration is what was given.
pub proof fn lemma_within_bounds_is_kept(
    identity: Seq<char>,
    description: Seq<char>,
    mac_override: Option<[u8; 6]>,
    mode: AddressingMode,
    hostname: Option<Seq<char>>,
)
    requires
        byte_len(identity) <= IDENTITY_CAPACITY,
        byte_len(description) <= DESCRIPTION_CAPACITY,
        hostname is Some ==> byte_len(hostname->0) <= HOSTNAME_CAPACITY,
    ensures
        checked_configuration(identity, description, mac_override, mode, hostname) == Ok::<
            ConfigurationView,
            ConfigError,
        >(ConfigurationView { identity, description, mac_override, mode, hostname }),
{
}

/// A field beyond its bound is refused, and nothing is constructed: the
/// outcome is the error of the first such field, in the order identity,
/// description, hostname.
pub proof fn lemma_over_length_is_refused(
    identity: Seq<char>,
    description: Seq<char>,
    mac_override: Option<[u8; 6]>,
    mode: AddressingMode,
    hostname: Option<Seq<char>>,
)
    requires
        byte_len(identity) > IDENTITY_CAPACITY || byte_len(description) > DESCRIPTION_CAPACITY || (
        hostname is Some && byte_len(hostname->0) > HOSTNAME_CAPACITY),
    ensures
        checked_configuration(identity, description, mac_override, mode, hostname) is Err,
        byte_len(identity) > IDENTITY_CAPACITY ==> checked_configuration(
            identity,
            description,
            mac_override,
            mode,
            hostname,
        ) == Err::<ConfigurationView, ConfigError>(ConfigError::IdentityTooLong),
        byte_len(identity) <= IDENTITY_CAPACITY && byte_len(description) > DESCRIPTION_CAPACITY
            ==> checked_configuration(identity, description, mac_override, mode, hostname) == Err::<
            ConfigurationView,
            ConfigError,
        >(ConfigError::DescriptionTooLong),
        byte_len(identity) <= IDENTITY_CAPACITY && byte_len(description) <= DESCRIPTION_CAPACITY
            ==> checked_configuration(identity, description, mac_override, mode, hostname) == Err::<
            ConfigurationView,
            ConfigError,
        >(ConfigError::HostnameTooLong),
{
}

/// Whether `text` can be stored in `N` bytes.
///
/// Trusted: the answer is that of `heapless::String::<N>::try_from`, which
/// starts from an empty buffer of capacity `N` and appends `text`, and which
/// fails exactly when the UTF-8 length of `text` exceeds `N`.
#[verifier::external_body]
fn fits_capacity<const N: usize>(text: &str) -> (fits: bool)
    ensures
        fits == (byte_len(text@) <= N),
{
    heapless::String::<N>::try_from(text).is_ok()
}

/// An interface's identity, addressing and naming, fixed at construction.
pub struct InterfaceConfiguration {
    identity: String,
    description: String,
    mac_override: Option<[u8; 6]>,
    mode: AddressingMode,
    hostname: Option<String>,
}

impl View for InterfaceConfiguration {
    type V = ConfigurationView;

    closed spec fn view(&self) -> ConfigurationView {
        ConfigurationView {
            identity: self.identity@,
            description: self.description@,
            mac_override: self.mac_override,
            mode: self.mode,
            hostname: match self.hostname {
                Some(h) => Some(h@),
                None => None,
            },
        }
    }
}

impl InterfaceConfiguration {
    /// Every stored text fits the buffer the platform reserves for it.
    #[verifier::type_invariant]
    spec fn within_bounds(self) -> bool {
        &&& byte_len(self.identity@) <= IDENTITY_CAPACITY
        &&& byte_len(self.description@) <= DESCRIPTION_CAPACITY
        &&& self.hostname is Some ==> byte_len(self.hostname->0@) <= HOSTNAME_CAPACITY
    }

    /// Builds the configuration, or says which text is too long. The fields of
    /// an accepted configuration are the arguments, unchanged.
    pub fn build(
        identity: &str,
        description: &str,
        mac_override: Option<[u8; 6]>,
        mode: AddressingMode,
        hostname: Option<&str>,
    ) -> (built: Result<InterfaceConfiguration, ConfigError>)
        ensures
            match built {
                Ok(configuration) => checked_configuration(
                    identity@,
                    description@,
                    mac_override,
                    mode,
                    match hostname {
                        Some(h) => Some(h@),
                        None => None,
                    },
                ) == Ok::<ConfigurationView, ConfigError>(configuration@),
                Err(error) => checked_configuration(
                    identity@,
                    description@,
                    mac_override,
                    mode,
                    match hostname {
                        Some(h) => Some(h@),
                        None => None,
                    },
                ) == Err::<ConfigurationView, ConfigError>(error),
            },
    {
        if !fits_capacity::<IDENTITY_CAPACITY>(identity) {
            return Err(ConfigError::IdentityTooLong);
        }
        if !fits_capacity::<DESCRIPTION_CAPACITY>(description) {
            return Err(ConfigError::DescriptionTooLong);
        }
        let hostname: Option<String> = match hostname {
            Some(hint) => {
                if !fits_capacity::<HOSTNAME_CAPACITY>(hint) {
                    return Err(ConfigError::HostnameTooLong);
                }
                Some(hint.to_owned())
            },
            None => None,
        };
        Ok(
            InterfaceConfiguration {
                identity: identity.to_owned(),
                description: description.to_owned(),
                mac_override,
                mode,
                hostname,
            },
        )
    }

    /// The identity, which fits `IDENTITY_CAPACITY` bytes.
    pub fn identity(&self) -> (text: &str)
        ensures
            text@ == self@.identity,
            byte_len(text@) <= IDENTITY_CAPACITY,
    {
        proof {
            use_type_invariant(self);
        }
        self.identity.as_str()
    }

    /// The description, which fits `DESCRIPTION_CAPACITY` bytes.
    pub fn description(&self) -> (text: &str)
        ensures
            text@ == self@.description,
            byte_len(text@) <= DESCRIPTION_CAPACITY,
    {
        proof {
            use_type_invariant(self);
        }
        self.description.as_str()
    }

    /// The hardware address that replaces the burned-in one, if any.
    pub fn mac_override(&self) -> (mac: Option<[u8; 6]>)
        ensures
            mac == self@.mac_override,
    {
        self.mac_override
    }

    /// How the interface obtains its address.
    pub fn mode(&self) -> (mode: AddressingMode)
        ensures
            mode == self@.mode,
    {
        self.mode
    }

    /// The hostname hint handed to the DHCP client, if any; it fits
    /// `HOSTNAME_CAPACITY` bytes.
    pub fn hostname(&self) -> (hint: Option<&str>)
        ensures
            match hint {
                Some(h) => self@.hostname == Some(h@) && byte_len(h@) <= HOSTNAME_CAPACITY,
                None => self@.hostname is None,
            },
    {
        proof {
            use_type_invariant(self);
        }
        match &self.hostname {
            Some(h) => Some(h.as_str()),
            None => None,
        }
    }
}

} // verus!
