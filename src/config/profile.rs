use vstd::prelude::*;
use crate::config::subsystem::SubsystemConfig;

verus! {

/// Text of a random (version 4) UUID in lower-case hyphenated form.
pub open spec fn is_v4_uuid_text(s: Seq<char>) -> bool {
    &&& s.len() == 36
    &&& s[8] == '-'
    &&& s[13] == '-'
    &&& s[18] == '-'
    &&& s[23] == '-'
    &&& s[14] == '4'
}

/// Relies on uuid::Uuid::new_v4 and its Display impl: a random version 4
/// UUID, written as 36 characters with hyphens after the 8th, 12th, 16th
/// and 20th digits.
#[verifier::external_body]
fn new_uuid_text() -> (r: String)
    ensures
        is_v4_uuid_text(r@),
{
    uuid::Uuid::new_v4().to_string()
}

/// The configuration document that one enable operation writes.
pub struct LoggingProfile {
    pub payload_content: Vec<SubsystemConfig>,
    pub payload_identifier: String,
    pub payload_uuid: String,
    pub payload_type: String,
    pub payload_version: i32,
}

impl LoggingProfile {
    /// Holds `content` in order under the fixed identifier, type and
    /// version, with `uuid` as its unique id.
    pub open spec fn is_profile_of(&self, content: Seq<SubsystemConfig>, uuid: Seq<char>) -> bool {
        &&& self.payload_content@ == content
        &&& self.payload_identifier@ == "com.security.logging"@
        &&& self.payload_uuid@ == uuid
        &&& self.payload_type@ == "Configuration"@
        &&& self.payload_version == 1
    }

    /// A profile holding `subsystems`, with the given unique id.
    pub fn with_uuid(subsystems: Vec<SubsystemConfig>, uuid: String) -> (r: LoggingProfile)
        ensures
            r.is_profile_of(subsystems@, uuid@),
    {
        LoggingProfile {
            payload_content: subsystems,
            payload_identifier: "com.security.logging".to_owned(),
            payload_uuid: uuid,
            payload_type: "Configuration".to_owned(),
            payload_version: 1,
        }
    }

    /// A profile holding `subsystems`, with a freshly generated unique id.
    pub fn new(subsystems: Vec<SubsystemConfig>) -> (r: LoggingProfile)
        ensures
            r.is_profile_of(subsystems@, r.payload_uuid@),
            is_v4_uuid_text(r.payload_uuid@),
    {
        let uuid = new_uuid_text();
        LoggingProfile::with_uuid(subsystems, uuid)
    }
}

/// One default entry per name: same length, same order, duplicates kept.
pub open spec fn defaults_for(configs: Seq<SubsystemConfig>, names: Seq<String>) -> bool {
    &&& configs.len() == names.len()
    &&& forall|i: int| 0 <= i < names.len() ==> #[trigger] configs[i].is_default_for(names[i]@)
}

/// The entry of each requested subsystem, in request order.
pub fn subsystem_configs(names: &Vec<String>) -> (r: Vec<SubsystemConfig>)
    ensures
        defaults_for(r@, names@),
{
    let mut r: Vec<SubsystemConfig> = Vec::new();
    let mut i: usize = 0;
    while i < names.len()
        invariant
            i <= names@.len(),
            defaults_for(r@, names@.subrange(0, i as int)),
        decreases names@.len() - i,
    {
        let c = SubsystemConfig::new(names[i].clone());
        r.push(c);
        i += 1;
        assert(forall|k: int| 0 <= k < i ==> names@.subrange(0, i as int)[k] == names@[k]);
    }
    assert(names@.subrange(0, names@.len() as int) =~= names@);
    r
}

/// The profile an enable operation writes for `names`.
pub fn build_profile(names: &Vec<String>) -> (r: LoggingProfile)
    ensures
        defaults_for(r.payload_content@, names@),
        r.is_profile_of(r.payload_content@, r.payload_uuid@),
        is_v4_uuid_text(r.payload_uuid@),
{
    LoggingProfile::new(subsystem_configs(names))
}

} // verus!
