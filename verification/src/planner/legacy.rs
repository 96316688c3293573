//! The first planners of the installer: multi-user installs on macOS and
//! Linux, planned as a short fixed list of steps.

use vstd::prelude::*;
use crate::planner::CommonSettings;
use crate::text::owned;

verus! {

/// A step of an early plan.
#[derive(Debug)]
pub enum LegacyStep {
    /// Create an APFS volume for the store on a disk.
    CreateApfsVolume { disk: String, name: String, case_sensitive: bool, encrypt: bool },
    /// Create a directory with the given mode.
    CreateDirectory { path: String, mode: u32, force_prune_on_revert: bool },
    /// Unpack Nix into the store.
    ProvisionNix,
    /// Write the Nix configuration.
    ConfigureNix,
    /// Kick a launchd service.
    KickstartLaunchctlService { service: String },
    /// Start the Nix daemon.
    StartNixDaemon,
    /// Start a systemd unit.
    StartSystemdUnit { unit: String },
}

/// The macOS multi-user planner with its options.
#[derive(Debug)]
pub struct DarwinMulti {
    pub settings: CommonSettings,
    /// Force encryption on the volume.
    pub volume_encrypt: bool,
    /// Use a case sensitive volume.
    pub case_sensitive: bool,
    pub volume_label: String,
    pub root_disk: Option<String>,
}

/// Whether the volume is encrypted: when asked for, or else when
/// `fdesetup isactive` exits with a status other than 0 (no status: no).
pub open spec fn darwin_multi_encrypts(volume_encrypt: bool, fdesetup_status: Option<i32>) -> bool {
    volume_encrypt || match fdesetup_status {
        Some(c) => c != 0,
        None => false,
    }
}

impl DarwinMulti {
    /// The plan, given the disk `diskutil` reports for `/` (used when no
    /// root disk was given) and the exit status of `fdesetup isactive`: an
    /// APFS volume on the root disk (never case sensitive), Nix, its
    /// configuration, and a kick of the daemon's launchd service.
    pub fn plan(&self, reported_root_disk: Option<String>, fdesetup_status: Option<i32>) -> (r: Vec<LegacyStep>)
        requires
            self.root_disk is Some || reported_root_disk is Some,
        ensures
            r.len() == 4,
            r[0] matches LegacyStep::CreateApfsVolume { disk, name, case_sensitive, encrypt } && disk@ == (match self.root_disk {
                Some(d) => d@,
                None => reported_root_disk->0@,
            }) && name@ == self.volume_label@ && !case_sensitive && encrypt == darwin_multi_encrypts(
                self.volume_encrypt,
                fdesetup_status,
            ),
            r[1] is ProvisionNix,
            r[2] is ConfigureNix,
            r[3] matches LegacyStep::KickstartLaunchctlService { service } && service@ == "system/org.nixos.nix-daemon"@,
    {
        let disk = match &self.root_disk {
            Some(d) => d.clone(),
            None => match reported_root_disk {
                Some(d) => d,
                None => String::new(),
            },
        };
        let encrypt = if self.volume_encrypt {
            true
        } else {
            match fdesetup_status {
                Some(c) => c != 0,
                None => false,
            }
        };
        let mut plan: Vec<LegacyStep> = Vec::new();
        plan.push(LegacyStep::CreateApfsVolume { disk, name: self.volume_label.clone(), case_sensitive: false, encrypt });
        plan.push(LegacyStep::ProvisionNix);
        plan.push(LegacyStep::ConfigureNix);
        plan.push(LegacyStep::KickstartLaunchctlService { service: owned("system/org.nixos.nix-daemon") });
        plan
    }
}

#[verifier::external_type_specification]
#[verifier::external_body]
pub struct ExPackage(sxd_document::Package);

/// Whether `sxd_document::parser::parse` accepts a text.
pub uninterp spec fn parses_as_xml(xml: Seq<char>) -> bool;

/// What `sxd_xpath::evaluate_xpath` gives as a string for the query on the
/// document that the text parses as: the string when the query's value is a
/// string, nothing otherwise.
pub uninterp spec fn xpath_string(xml: Seq<char>, xpath: Seq<char>) -> Option<Seq<char>>;

/// What the query gives as a string on a text: nothing when the text is not
/// XML.
pub open spec fn query_text(xml: Seq<char>, xpath: Seq<char>) -> Option<Seq<char>> {
    if parses_as_xml(xml) {
        xpath_string(xml, xpath)
    } else {
        None
    }
}

/// An XML document, with the text it was read from.
struct ParsedXml {
    text: String,
    package: sxd_document::Package,
}

/// Calls `sxd_document::parser::parse`; whether it succeeds is named by
/// `parses_as_xml`, and the text is kept beside the document.
#[verifier::external_body]
fn parse_xml(xml: &str) -> (r: Option<ParsedXml>)
    ensures
        r is Some <==> parses_as_xml(xml@),
        r matches Some(d) ==> d.text@ == xml@,
{
    match sxd_document::parser::parse(xml) {
        Ok(package) => Some(ParsedXml { text: xml.to_string(), package }),
        Err(_) => None,
    }
}

/// Calls `sxd_xpath::evaluate_xpath` on the document; the string it gives,
/// if any, is named by `xpath_string` of the document's text and the query.
#[verifier::external_body]
fn evaluate_xpath(doc: &ParsedXml, xpath: &str) -> (r: Option<String>)
    ensures
        match r {
            Some(s) => xpath_string(doc.text@, xpath@) == Some(s@),
            None => xpath_string(doc.text@, xpath@) is None,
        },
{
    match sxd_xpath::evaluate_xpath(&doc.package.as_document(), xpath) {
        Ok(sxd_xpath::Value::String(s)) => Some(s),
        Ok(_) => None,
        Err(_) => None,
    }
}

/// The query for the disk that holds `/` in `diskutil info -plist /`.
pub open spec fn parent_whole_disk_query() -> Seq<char> {
    "/plist/dict/key[text()='ParentWholeDisk']/following-sibling::string[1]/text()"@
}

/// The early macOS multi-user planner.
#[derive(Debug)]
pub struct DarwinMultiUser;

impl DarwinMultiUser {
    /// The disk that holds `/`, read from the output of `diskutil info -plist /`.
    pub fn root_disk(diskutil_xml: &str) -> (r: Option<String>)
        ensures
            match r {
                Some(d) => query_text(diskutil_xml@, parent_whole_disk_query()) == Some(d@),
                None => query_text(diskutil_xml@, parent_whole_disk_query()) is None,
            },
    {
        let doc = match parse_xml(diskutil_xml) {
            Some(d) => d,
            None => return None,
        };
        let query = "/plist/dict/key[text()='ParentWholeDisk']/following-sibling::string[1]/text()";
        evaluate_xpath(&doc, query)
    }

    /// The plan on the given root disk: an unencrypted, case-insensitive
    /// volume labelled `Nix Store`, Nix, its configuration, and the daemon.
    pub fn plan_on(root_disk: String) -> (r: Vec<LegacyStep>)
        ensures
            r.len() == 4,
            r[0] matches LegacyStep::CreateApfsVolume { disk, name, case_sensitive, encrypt } && disk@ == root_disk@
                && name@ == "Nix Store"@ && !case_sensitive && !encrypt,
            r[1] is ProvisionNix,
            r[2] is ConfigureNix,
            r[3] is StartNixDaemon,
    {
        let mut plan: Vec<LegacyStep> = Vec::new();
        plan.push(LegacyStep::CreateApfsVolume { disk: root_disk, name: owned("Nix Store"), case_sensitive: false, encrypt: false });
        plan.push(LegacyStep::ProvisionNix);
        plan.push(LegacyStep::ConfigureNix);
        plan.push(LegacyStep::StartNixDaemon);
        plan
    }

    /// The plan, from the output of `diskutil info -plist /`, which must
    /// name the root disk.
    pub fn plan(diskutil_xml: &str) -> (r: Vec<LegacyStep>)
        requires
            query_text(diskutil_xml@, parent_whole_disk_query()) is Some,
        ensures
            r.len() == 4,
            r[0] matches LegacyStep::CreateApfsVolume { disk, name, case_sensitive, encrypt } && Some(disk@) == query_text(
                diskutil_xml@,
                parent_whole_disk_query(),
            ) && name@ == "Nix Store"@ && !case_sensitive && !encrypt,
            r[1] is ProvisionNix,
            r[2] is ConfigureNix,
            r[3] is StartNixDaemon,
    {
        let disk = match DarwinMultiUser::root_disk(diskutil_xml) {
            Some(d) => d,
            None => String::new(),
        };
        DarwinMultiUser::plan_on(disk)
    }

    /// The plan when the output names the root disk, `None` otherwise.
    pub fn try_plan(diskutil_xml: &str) -> (r: Option<Vec<LegacyStep>>)
        ensures
            query_text(diskutil_xml@, parent_whole_disk_query()) is None ==> r is None,
            query_text(diskutil_xml@, parent_whole_disk_query()) is Some ==> (r matches Some(p) && {
                &&& p.len() == 4
                &&& p[0] matches LegacyStep::CreateApfsVolume { disk, name, case_sensitive, encrypt } && Some(disk@)
                    == query_text(diskutil_xml@, parent_whole_disk_query()) && name@ == "Nix Store"@
                    && !case_sensitive && !encrypt
                &&& p[1] is ProvisionNix
                &&& p[2] is ConfigureNix
                &&& p[3] is StartNixDaemon
            }),
    {
        match DarwinMultiUser::root_disk(diskutil_xml) {
            Some(_) => Some(DarwinMultiUser::plan(diskutil_xml)),
            None => None,
        }
    }
}

/// Why the early Linux planner refuses a host.
#[derive(Debug, Clone, Copy, PartialEq, Eq, Structural)]
pub enum LinuxMultiError {
    /// NixOS already has Nix installed.
    NixOs,
    /// `nix` is already a valid command, so it is installed.
    NixExists,
}

/// The early Linux multi-user planner.
#[derive(Debug)]
pub struct LinuxMulti {
    pub settings: CommonSettings,
}

impl LinuxMulti {
    /// The plan, given whether `/etc/NIXOS` exists and whether `nix-env`
    /// could be started: refused on NixOS and where Nix runs; otherwise the
    /// `/nix` directory, Nix, its configuration, and the daemon's socket.
    pub fn plan(&self, is_nixos: bool, nix_env_starts: bool) -> (r: Result<Vec<LegacyStep>, LinuxMultiError>)
        ensures
            is_nixos ==> r == Err::<Vec<LegacyStep>, LinuxMultiError>(LinuxMultiError::NixOs),
            !is_nixos && nix_env_starts ==> r == Err::<Vec<LegacyStep>, LinuxMultiError>(LinuxMultiError::NixExists),
            !is_nixos && !nix_env_starts ==> (r matches Ok(p) && p.len() == 4
                && (p[0] matches LegacyStep::CreateDirectory { path, mode, force_prune_on_revert } && path@ == "/nix"@
                && mode == 0o755 && force_prune_on_revert)
                && p[1] is ProvisionNix && p[2] is ConfigureNix
                && (p[3] matches LegacyStep::StartSystemdUnit { unit } && unit@ == "nix-daemon.socket"@)),
    {
        if is_nixos {
            return Err(LinuxMultiError::NixOs);
        }
        if nix_env_starts {
            return Err(LinuxMultiError::NixExists);
        }
        let mut plan: Vec<LegacyStep> = Vec::new();
        plan.push(LegacyStep::CreateDirectory { path: owned("/nix"), mode: 0o755, force_prune_on_revert: true });
        plan.push(LegacyStep::ProvisionNix);
        plan.push(LegacyStep::ConfigureNix);
        plan.push(LegacyStep::StartSystemdUnit { unit: owned("nix-daemon.socket") });
        Ok(plan)
    }
}

/// The earliest Linux multi-user planner.
#[derive(Debug)]
pub struct LinuxMultiUser;

impl LinuxMultiUser {
    /// Nix, its configuration, and the daemon's socket.
    pub fn plan() -> (r: Vec<LegacyStep>)
        ensures
            r.len() == 3,
            r[0] is ProvisionNix,
            r[1] is ConfigureNix,
            r[2] matches LegacyStep::StartSystemdUnit { unit } && unit@ == "nix-daemon.socket"@,
    {
        let mut plan: Vec<LegacyStep> = Vec::new();
        plan.push(LegacyStep::ProvisionNix);
        plan.push(LegacyStep::ConfigureNix);
        plan.push(LegacyStep::StartSystemdUnit { unit: owned("nix-daemon.socket") });
        plan
    }
}

} // verus!
