use runner::codec::{Member, NeutralValue};
use runner::output::OutputBuffer;
use runner::release::ResultRegistry;
use runner::run::{advance, finish_run, stage_error, Outcome, RunStep, Stage};
use runner::value::{GuestEntry, GuestValue};

fn member(name: &str, value: NeutralValue) -> Member {
    Member { name: name.to_string(), value }
}

fn buffer_with(line: &str) -> OutputBuffer {
    let mut buffer = OutputBuffer::new();
    buffer.print(&vec![GuestValue::Text(line.to_string())]);
    buffer
}

#[test]
fn the_stages_follow_one_another_in_order() {
    let mut stage = Stage::first();
    let mut seen = vec![stage];
    while let Some(next) = stage.next() {
        seen.push(next);
        stage = next;
    }
    assert_eq!(
        seen,
        vec![
            Stage::ReadCode,
            Stage::InstallPrint,
            Stage::InstallWrite,
            Stage::InstallLoader,
            Stage::InstallState,
            Stage::Evaluate,
            Stage::Serialize,
        ]
    );
}

#[test]
fn each_stage_tags_its_error() {
    assert_eq!(stage_error(Stage::ReadCode, "x"), "Failed to read code: x");
    assert_eq!(stage_error(Stage::InstallPrint, "x"), "Failed to install print collector: x");
    assert_eq!(stage_error(Stage::InstallWrite, "x"), "Failed to install io.write collector: x");
    assert_eq!(stage_error(Stage::InstallLoader, "x"), "Failed to install require loader: x");
    assert_eq!(stage_error(Stage::InstallState, "x"), "Failed to install RDF API: x");
    assert_eq!(stage_error(Stage::Evaluate, "x"), "runtime error: x");
    assert_eq!(stage_error(Stage::Serialize, "x"), "Cannot serialize return value: x");
    assert_eq!(stage_error(Stage::Evaluate, ""), "runtime error: ");
}

#[test]
fn a_failed_stage_ends_the_run_with_its_error() {
    assert_eq!(
        advance(Stage::Evaluate, Err("[string \"input\"]:1: boom".to_string())),
        RunStep::Stop(Outcome::Failure {
            message: "runtime error: [string \"input\"]:1: boom".to_string()
        })
    );
    assert_eq!(
        advance(Stage::ReadCode, Err("invalid utf-8".to_string())),
        RunStep::Stop(Outcome::Failure { message: "Failed to read code: invalid utf-8".to_string() })
    );
}

#[test]
fn a_successful_stage_leads_to_the_next() {
    assert_eq!(advance(Stage::ReadCode, Ok(())), RunStep::Proceed(Stage::InstallPrint));
    assert_eq!(advance(Stage::InstallState, Ok(())), RunStep::Proceed(Stage::Evaluate));
    assert_eq!(advance(Stage::Evaluate, Ok(())), RunStep::Proceed(Stage::Serialize));
    assert_eq!(advance(Stage::Serialize, Ok(())), RunStep::Complete);
}

#[test]
fn a_run_ends_with_the_returned_value_and_the_output() {
    let outcome = finish_run(&GuestValue::Integer(42), &buffer_with("a"));
    assert_eq!(
        outcome,
        Outcome::Success { result: NeutralValue::Integer(42), output: "a\n".to_string() }
    );
    let outcome = finish_run(&GuestValue::Nil, &OutputBuffer::new());
    assert_eq!(outcome, Outcome::Success { result: NeutralValue::Null, output: String::new() });
    let table = GuestValue::Record(vec![GuestEntry {
        key: GuestValue::Text("k".to_string()),
        item: GuestValue::Sequence(vec![GuestValue::Boolean(true)]),
    }]);
    assert_eq!(
        finish_run(&table, &OutputBuffer::new()),
        Outcome::Success {
            result: NeutralValue::Object(vec![member(
                "k",
                NeutralValue::Array(vec![NeutralValue::Bool(true)])
            )]),
            output: String::new(),
        }
    );
}

#[test]
fn a_returned_string_that_is_not_text_becomes_the_placeholder() {
    assert_eq!(
        finish_run(&GuestValue::Bytes(vec![0xff, 0x00]), &OutputBuffer::new()),
        Outcome::Success {
            result: NeutralValue::Text("<invalid utf8>".to_string()),
            output: String::new(),
        }
    );
}

#[test]
fn a_returned_function_thread_or_user_data_becomes_the_placeholder() {
    for value in [GuestValue::Function, GuestValue::Thread, GuestValue::UserData] {
        assert_eq!(
            finish_run(&value, &buffer_with("kept")),
            Outcome::Success {
                result: NeutralValue::Text("<invalid utf8>".to_string()),
                output: "kept\n".to_string(),
            }
        );
    }
}

#[test]
fn a_returned_value_that_cannot_be_converted_fails_the_run() {
    assert_eq!(
        finish_run(&GuestValue::Error("boom".to_string()), &buffer_with("dropped")),
        Outcome::Failure {
            message: "Cannot serialize return value: cannot serialize <error>".to_string()
        }
    );
    assert_eq!(
        finish_run(&GuestValue::Sequence(vec![GuestValue::Function]), &buffer_with("dropped")),
        Outcome::Failure {
            message: "Cannot serialize return value: cannot serialize <function>".to_string()
        }
    );
    assert_eq!(
        finish_run(&GuestValue::Sequence(vec![GuestValue::UserData]), &OutputBuffer::new()),
        Outcome::Failure {
            message: "Cannot serialize return value: cannot serialize <userdata>".to_string()
        }
    );
    assert_eq!(
        finish_run(&GuestValue::Sequence(vec![GuestValue::Bytes(vec![0x80])]), &OutputBuffer::new()),
        Outcome::Failure {
            message:
                "Cannot serialize return value: cannot serialize a string that is not valid text"
                    .to_string()
        }
    );
    assert_eq!(
        finish_run(
            &GuestValue::Record(vec![GuestEntry {
                key: GuestValue::Integer(1),
                item: GuestValue::Nil,
            }]),
            &OutputBuffer::new()
        ),
        Outcome::Failure {
            message:
                "Cannot serialize return value: cannot serialize a table with a key of type <integer>"
                    .to_string()
        }
    );
}

#[test]
fn the_record_of_a_success_has_result_output_and_null_error() {
    let outcome = Outcome::Success { result: NeutralValue::Integer(1), output: "o".to_string() };
    assert_eq!(
        outcome.record(),
        NeutralValue::Object(vec![
            member("result", NeutralValue::Integer(1)),
            member("output", NeutralValue::Text("o".to_string())),
            member("error", NeutralValue::Null),
        ])
    );
}

#[test]
fn the_record_of_a_failure_has_null_result_and_the_message() {
    let outcome = Outcome::Failure { message: "runtime error: x".to_string() };
    assert_eq!(
        outcome.record(),
        NeutralValue::Object(vec![
            member("result", NeutralValue::Null),
            member("error", NeutralValue::Text("runtime error: x".to_string())),
        ])
    );
}

#[test]
fn a_registered_handle_is_released_once() {
    let mut registry = ResultRegistry::new();
    assert!(!registry.is_live(7));
    registry.register(7);
    registry.register(9);
    assert!(registry.is_live(7));
    assert!(registry.is_live(9));
    assert!(registry.release(7));
    assert!(!registry.is_live(7));
    assert!(registry.is_live(9));
    assert!(!registry.release(7));
    assert!(registry.release(9));
    assert!(!registry.release(9));
}

#[test]
fn releasing_an_unknown_handle_changes_nothing() {
    let mut registry = ResultRegistry::new();
    assert!(!registry.release(0));
    registry.register(5);
    assert!(!registry.release(6));
    assert!(registry.is_live(5));
}

#[test]
fn a_handle_registered_twice_is_released_as_one() {
    let mut registry = ResultRegistry::new();
    registry.register(3);
    registry.register(3);
    assert!(registry.release(3));
    assert!(!registry.is_live(3));
    assert!(!registry.release(3));
}
