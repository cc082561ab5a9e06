//! Reference configuration-plugin handlers, exercised by the test suite.

use vstd::prelude::*;

use crate::dmconfigfile::ConfigFile;

verus! {

/// Create hook of the reference plugin: nothing to set up.
pub fn create(config: ConfigFile) {
}

/// Destroy hook of the reference plugin: nothing to tear down.
pub fn destroy(config: ConfigFile) {
}

/// String getter of the reference plugin: answers for exactly one key and
/// declines every other, whatever the default.
pub fn get_string(config: ConfigFile, key: String, default_value: String) -> (r: Option<String>)
    ensures
        key@ == "my_section.my_value"@ ==> (r matches Some(v) && v@ == "It works!"@),
        key@ != "my_section.my_value"@ ==> r is None,
{
    let target: String = "my_section.my_value".to_owned();
    if key == target {
        Some("It works!".to_owned())
    } else {
        None
    }
}

} // verus!
