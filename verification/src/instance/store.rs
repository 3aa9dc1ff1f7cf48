//! Where instances are stored: the index as JSON, each instance's detail as
//! TOML in its own folder, all under the launcher's data directory.

use vstd::prelude::*;
use crate::platform::{join, join_path, Os};

verus! {

/// `<data>/instances`.
pub open spec fn instances_dir_of(os: Os, data: Seq<char>) -> Seq<char> {
    join_path(os, data, "instances"@)
}

pub fn instances_dir(data_dir: &str, os: Os) -> (r: String)
    ensures
        r@ == instances_dir_of(os, data_dir@),
{
    join(os, data_dir, "instances")
}

/// `<data>/instances.json`, the index.
pub fn index_path(data_dir: &str, os: Os) -> (r: String)
    ensures
        r@ == join_path(os, data_dir@, "instances.json"@),
{
    join(os, data_dir, "instances.json")
}

/// `<data>/instances/<id>`, an instance's folder.
pub fn instance_dir(data_dir: &str, id: &str, os: Os) -> (r: String)
    ensures
        r@ == join_path(os, instances_dir_of(os, data_dir@), id@),
{
    let d = instances_dir(data_dir, os);
    join(os, d.as_str(), id)
}

/// `<data>/instances/<id>/instance.toml`, an instance's record.
pub fn instance_toml(data_dir: &str, id: &str, os: Os) -> (r: String)
    ensures
        r@ == join_path(os, join_path(os, instances_dir_of(os, data_dir@), id@), "instance.toml"@),
{
    let d = instance_dir(data_dir, id, os);
    join(os, d.as_str(), "instance.toml")
}

} // verus!
