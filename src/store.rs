//! Artifact keys: where each class of artifact lives under its storage root.

use vstd::prelude::*;
use crate::timestamp::{report_file_name, report_file_name_of, report_label, timestamp_label};

verus! {

/// A storage location: a root directory followed by namespace segments and a
/// leaf name, joined in order.
pub struct ArtifactPath {
    pub segments: Vec<String>,
}

impl View for ArtifactPath {
    type V = Seq<Seq<char>>;

    open spec fn view(&self) -> Seq<Seq<char>> {
        self.segments@.map_values(|s: String| s@)
    }
}

impl ArtifactPath {
    /// The location of a storage root itself.
    pub fn root(dir: &str) -> (r: ArtifactPath)
        ensures
            r@ == seq![dir@],
    {
        let mut segments: Vec<String> = Vec::new();
        segments.push(dir.to_string());
        let r = ArtifactPath { segments };
        assert(r@ =~= seq![dir@]);
        r
    }

    /// The location of `name` inside this one.
    pub fn join(&self, name: &str) -> (r: ArtifactPath)
        ensures
            r@ == self@.push(name@),
    {
        let mut segments = self.segments.clone();
        segments.push(name.to_string());
        let r = ArtifactPath { segments };
        assert(r@ =~= self@.push(name@));
        r
    }
}

impl Clone for ArtifactPath {
    fn clone(&self) -> (r: ArtifactPath)
        ensures
            r@ == self@,
    {
        ArtifactPath { segments: self.segments.clone() }
    }
}

/// The settings fixed at start-up and shared read-only by every request and
/// every sweeper.
pub struct Options {
    /// Port the service listens on.
    pub port: u16,
    /// Root of generic uploads.
    pub output: String,
    /// Age in seconds after which an artifact is reclaimed.
    pub max_save_time: u64,
    /// Root of minidumps and their reports.
    pub minidump_dir: String,
    /// Root of symbol files.
    pub minidump_sym_dir: String,
}

/// Where a generic upload named `filename` is stored.
pub open spec fn upload_key(opt: &Options, filename: Seq<char>) -> Seq<Seq<char>> {
    seq![opt.output@, filename]
}

/// The namespace directory of a module's symbol files.
pub open spec fn symbol_dir_key(opt: &Options, module_name: Seq<char>, module_id: Seq<char>) -> Seq<
    Seq<char>,
> {
    seq![opt.minidump_sym_dir@, module_name, module_id]
}

/// The namespace directory of one vehicle's dumps at one timestamp.
pub open spec fn minidump_dir_key(
    opt: &Options,
    vehicle_name: Seq<char>,
    timestamp: Seq<char>,
) -> Seq<Seq<char>> {
    seq![opt.minidump_dir@, vehicle_name, timestamp]
}

/// Where the raw dump is staged while it is symbolicated.
pub open spec fn staging_key(
    opt: &Options,
    vehicle_name: Seq<char>,
    timestamp: Seq<char>,
    filename: Seq<char>,
) -> Seq<Seq<char>> {
    minidump_dir_key(opt, vehicle_name, timestamp).push(filename + ".dmp"@)
}

/// Where the processed report of a vehicle's dump at a timestamp is stored.
pub open spec fn report_key(opt: &Options, vehicle_name: Seq<char>, timestamp: Seq<char>) -> Seq<
    Seq<char>,
> {
    seq![opt.minidump_dir@, vehicle_name, report_file_name_of(report_label(timestamp))]
}

/// Where a generic upload named `filename` is stored.
pub fn upload_path(opt: &Options, filename: &str) -> (r: ArtifactPath)
    ensures
        r@ == upload_key(opt, filename@),
{
    ArtifactPath::root(opt.output.as_str()).join(filename)
}

/// Where a download of `filename` reads from.
pub fn download_path(opt: &Options, filename: &str) -> (r: ArtifactPath)
    ensures
        r@ == seq![opt.output@, filename@],
{
    ArtifactPath::root(opt.output.as_str()).join(filename)
}

/// The directory that holds a module's symbol files.
pub fn symbol_dir(opt: &Options, module_name: &str, module_id: &str) -> (r: ArtifactPath)
    ensures
        r@ == symbol_dir_key(opt, module_name@, module_id@),
{
    ArtifactPath::root(opt.minidump_sym_dir.as_str()).join(module_name).join(module_id)
}

/// The directory that holds a vehicle's dumps at a timestamp.
pub fn minidump_dir(opt: &Options, vehicle_name: &str, timestamp: &str) -> (r: ArtifactPath)
    ensures
        r@ == minidump_dir_key(opt, vehicle_name@, timestamp@),
{
    ArtifactPath::root(opt.minidump_dir.as_str()).join(vehicle_name).join(timestamp)
}

/// Where the raw dump uploaded as `filename` is staged.
pub fn staging_path(opt: &Options, vehicle_name: &str, timestamp: &str, filename: &str) -> (r:
    ArtifactPath)
    ensures
        r@ == staging_key(opt, vehicle_name@, timestamp@, filename@),
{
    let name = filename.to_string().concat(".dmp");
    minidump_dir(opt, vehicle_name, timestamp).join(name.as_str())
}

/// Where the processed report of a vehicle's dump at a timestamp is stored:
/// beside the timestamp directories, named after the formatted timestamp.
pub fn minidump_filepath(opt: &Options, vehicle_name: &str, timestamp: &str) -> (r: ArtifactPath)
    ensures
        r@ == report_key(opt, vehicle_name@, timestamp@),
{
    let label = timestamp_label(timestamp);
    let name = report_file_name(label.as_str());
    ArtifactPath::root(opt.minidump_dir.as_str()).join(vehicle_name).join(name.as_str())
}

} // verus!
