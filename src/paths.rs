use vstd::prelude::*;

use crate::error::PluginError;
use crate::text::{owned, strs};

verus! {

/// The operating-system family that decides the default data directory.
#[derive(Clone, Copy, PartialEq, Eq, Debug)]
pub enum OsFamily {
    Windows,
    Linux,
    Other,
}

/// The path segments of the default data directory, given the roaming
/// application-data directory and the home directory, or `None` where no
/// default exists.
pub open spec fn default_path_segments(
    os: OsFamily,
    appdata: Option<Seq<char>>,
    home: Option<Seq<char>>,
) -> Option<Seq<Seq<char>>> {
    match os {
        OsFamily::Windows => match appdata {
            Some(a) => Some(seq![a, "Chatterino2"@]),
            None => None,
        },
        OsFamily::Linux => match home {
            Some(h) => Some(seq![h, ".local/share/chatterino"@]),
            None => None,
        },
        OsFamily::Other => None,
    }
}

/// The variable the default data directory is read from.
pub open spec fn default_path_variable(os: OsFamily) -> Seq<char> {
    if os == OsFamily::Windows { "APPDATA"@ } else { "HOME"@ }
}

/// Errors of `get_default_chatterino_path` on a failed lookup.
pub open spec fn default_path_error(os: OsFamily, e: PluginError) -> bool {
    match os {
        OsFamily::Other => e is UnsupportedPlatform,
        _ => e matches PluginError::MissingEnvironmentVariable { variable } && variable@
            == default_path_variable(os),
    }
}

/// The default Chatterino data directory, as the segments to join: on
/// Windows `%APPDATA%` and `Chatterino2`, on Linux `$HOME` and
/// `.local/share/chatterino`. The caller reads the two variables; the path
/// is not checked for existence.
pub fn get_default_chatterino_path(
    os: OsFamily,
    appdata: Option<&str>,
    home: Option<&str>,
) -> (r: Result<Vec<String>, PluginError>)
    ensures
        match default_path_segments(
            os,
            match appdata { Some(a) => Some(a@), None => None },
            match home { Some(h) => Some(h@), None => None },
        ) {
            Some(p) => r matches Ok(v) && strs(v@) == p,
            None => r matches Err(e) && default_path_error(os, e),
        },
{
    match os {
        OsFamily::Windows => match appdata {
            Some(a) => {
                let v = vec![owned(a), owned("Chatterino2")];
                assert(strs(v@) =~= seq![a@, "Chatterino2"@]);
                Ok(v)
            },
            None => Err(PluginError::MissingEnvironmentVariable { variable: owned("APPDATA") }),
        },
        OsFamily::Linux => match home {
            Some(h) => {
                let v = vec![owned(h), owned(".local/share/chatterino")];
                assert(strs(v@) =~= seq![h@, ".local/share/chatterino"@]);
                Ok(v)
            },
            None => Err(PluginError::MissingEnvironmentVariable { variable: owned("HOME") }),
        },
        OsFamily::Other => Err(PluginError::UnsupportedPlatform),
    }
}

/// The Plugins directory, as the segments to join: under the explicit
/// Chatterino directory when one is given, else under the default one.
pub fn chatterino_plugins_path(
    explicit: Option<&str>,
    os: OsFamily,
    appdata: Option<&str>,
    home: Option<&str>,
) -> (r: Result<Vec<String>, PluginError>)
    ensures
        match explicit {
            Some(p) => r matches Ok(v) && strs(v@) == seq![p@, "Plugins"@],
            None => match default_path_segments(
                os,
                match appdata { Some(a) => Some(a@), None => None },
                match home { Some(h) => Some(h@), None => None },
            ) {
                Some(p) => r matches Ok(v) && strs(v@) == p.push("Plugins"@),
                None => r matches Err(e) && default_path_error(os, e),
            },
        },
{
    match explicit {
        Some(p) => {
            let v = vec![owned(p), owned("Plugins")];
            assert(strs(v@) =~= seq![p@, "Plugins"@]);
            Ok(v)
        },
        None => {
            let mut v = get_default_chatterino_path(os, appdata, home)?;
            let ghost before = v@;
            v.push(owned("Plugins"));
            assert(strs(v@) =~= strs(before).push("Plugins"@));
            Ok(v)
        },
    }
}

} // verus!
