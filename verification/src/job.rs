use vstd::prelude::*;
use vstd::string::StringExecFns;
use crate::config::RunConfig;

verus! {

/// The path of the file a job reads: the input folder, a slash, the job's name.
pub open spec fn spec_input_path(folder: Seq<char>, name: Seq<char>) -> Seq<char> {
    folder + "/"@ + name
}

/// The path of the file a job writes: the input name kept whole with the target
/// format appended as one more extension, inside the output folder.
pub open spec fn spec_output_path(folder: Seq<char>, name: Seq<char>, format: Seq<char>) -> Seq<char> {
    folder + "/"@ + name + "."@ + format
}

/// One unit of work: a file name, its position in the job list, and the input
/// and output paths derived from the run configuration. Immutable once computed.
pub struct Job {
    pub index: usize,
    pub name: String,
    pub input_path: String,
    pub output_path: String,
}

impl Job {
    /// The paths are the ones `config` derives from the job's name.
    pub open spec fn wf(&self, config: RunConfig) -> bool {
        &&& self.input_path@ == spec_input_path(config.input_folder@, self.name@)
        &&& self.output_path@ == spec_output_path(config.output_folder@, self.name@, config.format@)
    }

    /// Compute the paths for the job `name` claimed at `index`. A worker calls
    /// this after a successful claim, outside the lock: path construction needs
    /// nothing shared.
    pub fn derive(config: &RunConfig, name: String, index: usize) -> (job: Job)
        ensures
            job.wf(*config),
            job.index == index,
            job.name == name,
    {
        let mut input_path = String::from_str(config.input_folder.as_str());
        input_path.append("/");
        input_path.append(name.as_str());
        let mut output_path = String::from_str(config.output_folder.as_str());
        output_path.append("/");
        output_path.append(name.as_str());
        output_path.append(".");
        output_path.append(config.format.as_str());
        Job { index, name, input_path, output_path }
    }
}

/// The argument list handed to the external converter for one job: the
/// overwrite flag (`-y` to overwrite, `-n` to keep existing files), quiet
/// logging, no statistics, the input path, audio only, the output path.
pub fn converter_args(job: &Job, config: &RunConfig) -> (args: Vec<String>)
    ensures
        args@.len() == 8,
        args@[0]@ == (if config.overwrite { "-y"@ } else { "-n"@ }),
        args@[1]@ == "-loglevel"@,
        args@[2]@ == "panic"@,
        args@[3]@ == "-nostats"@,
        args@[4]@ == "-i"@,
        args@[5] == job.input_path,
        args@[6]@ == "-vn"@,
        args@[7] == job.output_path,
{
    let mut args: Vec<String> = Vec::new();
    if config.overwrite {
        args.push(String::from_str("-y"));
    } else {
        args.push(String::from_str("-n"));
    }
    args.push(String::from_str("-loglevel"));
    args.push(String::from_str("panic"));
    args.push(String::from_str("-nostats"));
    args.push(String::from_str("-i"));
    args.push(job.input_path.clone());
    args.push(String::from_str("-vn"));
    args.push(job.output_path.clone());
    args
}

} // verus!
