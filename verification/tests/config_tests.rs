use mate_bench::config::{ConfigError, EngineOptions, RunConfig, check_args};

fn base_config() -> RunConfig {
    RunConfig {
        engine_path: String::from("./engine"),
        sfen_paths: vec![String::from("a.sfen"), String::from("b.sfen")],
        workers: 4,
        engine_options: EngineOptions { threads: 1, hash: 16 },
    }
}

#[test]
fn valid_configuration_passes() {
    assert_eq!(check_args(&base_config()), Ok(()));
}

#[test]
fn empty_file_list_is_rejected() {
    let mut c = base_config();
    c.sfen_paths = vec![];
    assert_eq!(check_args(&c), Err(ConfigError::NoSfenFiles));
}

#[test]
fn zero_workers_are_rejected() {
    let mut c = base_config();
    c.workers = 0;
    assert_eq!(check_args(&c), Err(ConfigError::ZeroWorkers));
}

#[test]
fn zero_engine_threads_are_rejected() {
    let mut c = base_config();
    c.engine_options.threads = 0;
    assert_eq!(check_args(&c), Err(ConfigError::ZeroThreads));
}
