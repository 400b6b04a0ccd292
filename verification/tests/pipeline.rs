// End-to-end scenario over three passes: one watched file, an open step that
// hands over the file's content, an uppercasing stage, and a terminal step
// that writes into a sink.  The driver below plays the role app code plays in
// production: it performs each action the run asks for and feeds the outcome
// back.

use filewatch::{
    Action, Event, FileListBuilder, WatchError, WatchedFile, WatchingFuncResult,
};

const UPPER: u32 = 1;

type WatchSet = FileListBuilder<u8, u32, u8>;

// One pass with a simulated filesystem (`fs_stamp` is what a timestamp read
// answers) and simulated user functions: open yields `content`, stage UPPER
// uppercases, the terminal pushes into `sink`.
fn drive(
    set: WatchSet,
    fs_stamp: u128,
    content: &str,
    sink: &mut Vec<String>,
) -> (WatchSet, Result<(), WatchError>) {
    let (mut run, mut act) = set.start::<String>();
    let mut steps = 0;
    loop {
        act = match act {
            Action::Sleep => run.step(Event::Slept),
            Action::ReadStamp => run.step(Event::Stamp(Ok(fs_stamp))),
            Action::CallOpen => run.step(Event::Produced(WatchingFuncResult::Success(
                content.to_string(),
            ))),
            Action::CallStage(j) => {
                let stage = run.set.files[run.idx].functions_on_run[j];
                let value = run.current.clone().unwrap();
                let outcome = match stage {
                    UPPER => WatchingFuncResult::Success(value.to_uppercase()),
                    _ => WatchingFuncResult::Fail("unknown stage".to_string()),
                };
                run.step(Event::Produced(outcome))
            }
            Action::CallEnd => {
                sink.push(run.current.clone().unwrap());
                run.step(Event::Ended(Ok(())))
            }
            Action::Done => break,
        };
        steps += 1;
        assert!(steps < 1000, "the pass did not terminate");
    }
    run.finish()
}

#[test]
fn three_passes_over_one_file() {
    let file: WatchedFile<u32, u8> =
        WatchedFile::with_modified("a.txt".to_string(), 100, 0u8).add_func(UPPER);
    let set = FileListBuilder::new(0u8).add_file(file);
    let mut sink: Vec<String> = Vec::new();

    // pass 1, the first run: the pipeline runs whatever the timestamps say
    let (set, res) = drive(set, 100, "hello", &mut sink);
    assert!(res.is_ok());
    assert_eq!(sink, vec!["HELLO".to_string()]);

    // pass 2, file untouched: the sink receives nothing
    let (set, res) = drive(set, 100, "hello", &mut sink);
    assert!(res.is_ok());
    assert_eq!(sink, vec!["HELLO".to_string()]);

    // pass 3, the file was touched: the pipeline runs again
    let (set, res) = drive(set, 200, "hello again", &mut sink);
    assert!(res.is_ok());
    assert_eq!(
        sink,
        vec!["HELLO".to_string(), "HELLO AGAIN".to_string()]
    );
    // and the new timestamp is now the stored one
    assert_eq!(set.files[0].date_modified, 200);
}
