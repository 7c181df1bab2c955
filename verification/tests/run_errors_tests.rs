use atra::run_errors::{
    AtraRunError, CrawlWriteError, GlobalError, InstructionError, LinkHandlingError,
    LocalContextInitError, SeedCreationError,
};

#[test]
fn preparation_errors_have_their_exit_codes() {
    assert_eq!(InstructionError::IOError("x".to_string()).exit_code(), 2);
    assert_eq!(InstructionError::ConfigError("x".to_string()).exit_code(), 3);
    assert_eq!(InstructionError::ConfigDeserializationError("x".to_string()).exit_code(), 4);
    assert_eq!(InstructionError::RootAlreadyExists("x".to_string()).exit_code(), 5);
    assert_eq!(InstructionError::DumbSerialisationError("x".to_string()).exit_code(), 70);
}

#[test]
fn preparation_errors_show_their_cause() {
    assert_eq!(InstructionError::IOError("disk full".to_string()).message(), "disk full");
    assert_eq!(
        InstructionError::RootAlreadyExists("atra_data/single".to_string()).message(),
        "The path atra_data/single already exists."
    );
}

#[test]
fn run_errors_have_the_exit_code_of_their_stage() {
    let codes = [
        (LocalContextInitError::Io("e".to_string()), 11),
        (LocalContextInitError::IoWithPath("e".to_string()), 11),
        (LocalContextInitError::OpenDB("e".to_string()), 12),
        (LocalContextInitError::RocksDB("e".to_string()), 13),
        (LocalContextInitError::QueueFile("e".to_string()), 14),
        (LocalContextInitError::BlackList("e".to_string()), 15),
        (LocalContextInitError::Svm("e".to_string()), 16),
        (LocalContextInitError::WebGraph("e".to_string()), 17),
        (LocalContextInitError::Serde("e".to_string()), 18),
    ];
    for (error, code) in codes {
        assert_eq!(error.exit_code(), code);
        assert_eq!(error.message(), "e");
        assert_eq!(AtraRunError::ContextInitialisation(error).exit_code(), code);
    }
    assert_eq!(AtraRunError::WorkerContextInitialisation("w".to_string()).exit_code(), 40);
    assert_eq!(AtraRunError::Queue("q".to_string()).exit_code(), 50);
    let crawl_codes = [
        (GlobalError::SlimCrawlError("e".to_string()), 101),
        (GlobalError::LinkHandling(LinkHandlingError::UrlQueue("e".to_string())), 102),
        (GlobalError::LinkState("e".to_string()), 103),
        (GlobalError::LinkStateDatabase("e".to_string()), 104),
        (GlobalError::CrawlWriteError(CrawlWriteError::TempFilesCanNotBeStoredError), 105),
        (GlobalError::QueueError("e".to_string()), 106),
        (GlobalError::ClientError("e".to_string()), 107),
        (GlobalError::IOError("e".to_string()), 109),
    ];
    for (error, code) in crawl_codes {
        assert_eq!(error.exit_code(), code);
        assert_eq!(AtraRunError::Crawl(error).exit_code(), code);
    }
}

#[test]
fn crawl_errors_show_their_cause() {
    assert_eq!(LinkHandlingError::LinkNetError("graph".to_string()).message(), "graph");
    assert_eq!(LinkHandlingError::LinkState("state".to_string()).message(), "state");
    let temp: CrawlWriteError<String> = CrawlWriteError::TempFilesCanNotBeStoredError;
    assert_eq!(temp.message(), "Tried to store a tempfile. this is not possible!");
    let slim: CrawlWriteError<String> = CrawlWriteError::SlimError("slim".to_string());
    assert_eq!(slim.message(), "slim");
    assert_eq!(
        SeedCreationError::GuardAndUrlDifferInOrigin {
            origin_from_guard: "a.de".to_string(),
            origin_from_url: "b.de".to_string(),
        }
        .message(),
        "The host a.de (Guard) is not the same as b.de (url)!"
    );
    assert_eq!(SeedCreationError::NoOrigin.message(), "No origin found for the url!");
}
