use rs_ffmpeg_wrapper::config::RunConfig;
use rs_ffmpeg_wrapper::formats::{is_supported_format, supported_formats};
use rs_ffmpeg_wrapper::job::{converter_args, Job};

fn config(overwrite: bool) -> RunConfig {
    RunConfig {
        input_folder: String::from("./input"),
        output_folder: String::from("./output"),
        program: String::from("ffmpeg"),
        overwrite,
        format: String::from("mp3"),
    }
}

#[test]
fn the_ten_supported_formats() {
    let expected = [
        "mp3", "m4a", "flac", "ogg", "wav", "aac", "m4b", "oga", "opus", "webm",
    ];
    let formats = supported_formats();
    assert_eq!(formats.len(), 10);
    for (i, f) in formats.iter().enumerate() {
        assert_eq!(f, expected[i]);
    }
}

#[test]
fn every_supported_format_is_accepted() {
    for f in supported_formats() {
        assert!(is_supported_format(f.as_str()));
    }
}

#[test]
fn unsupported_formats_are_rejected() {
    for f in ["3gp", "bmp", "", "MP3", "mp4", "mp3 "] {
        assert!(!is_supported_format(f), "{:?} must be rejected", f);
    }
}

#[test]
fn derived_paths_join_folder_name_and_format() {
    let job = Job::derive(&config(false), String::from("song.wav"), 7);
    assert_eq!(job.index, 7);
    assert_eq!(job.name, "song.wav");
    assert_eq!(job.input_path, "./input/song.wav");
    // the input name is kept whole; the target format is one more extension
    assert_eq!(job.output_path, "./output/song.wav.mp3");
}

#[test]
fn converter_args_keep_existing_files_by_default() {
    let cfg = config(false);
    let job = Job::derive(&cfg, String::from("a.wav"), 0);
    let args = converter_args(&job, &cfg);
    assert_eq!(
        args,
        vec![
            "-n",
            "-loglevel",
            "panic",
            "-nostats",
            "-i",
            "./input/a.wav",
            "-vn",
            "./output/a.wav.mp3",
        ]
    );
}

#[test]
fn converter_args_overwrite_when_asked() {
    let cfg = config(true);
    let job = Job::derive(&cfg, String::from("a.wav"), 0);
    let args = converter_args(&job, &cfg);
    assert_eq!(args[0], "-y");
    assert_eq!(args.len(), 8);
}
