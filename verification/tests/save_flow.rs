use shell_bridge::links::build_blob_save_request;
use shell_bridge::save::on_destination_chosen;
use shell_bridge::save::on_write_attempt;
use shell_bridge::save::SaveOutcome;
use shell_bridge::save::SaveStep;
use shell_bridge::save::WriteAttempt;

#[test]
fn cancelled_picker_succeeds_without_writing() {
    let step = on_destination_chosen(None);
    assert_eq!(step, SaveStep::Done { outcome: SaveOutcome::Success });
}

#[test]
fn chosen_destination_is_written_to() {
    let step = on_destination_chosen(Some(String::from("/home/user/report.pdf")));
    match step {
        SaveStep::WriteTo { path } => assert_eq!(path, "/home/user/report.pdf"),
        other => panic!("expected a write step, got {:?}", other),
    }
}

#[test]
fn payload_reaches_the_write_step_unchanged() {
    let payload: Vec<u8> = (0..=255u8).cycle().take(1000).collect();
    let req = build_blob_save_request(&Some(String::from("big.bin")), "application/octet-stream", payload.clone());
    assert_eq!(req.file_bytes.len(), 1000);
    assert_eq!(req.file_bytes, payload);
}

#[test]
fn complete_write_is_a_success() {
    assert_eq!(on_write_attempt(&WriteAttempt::AllWritten), SaveOutcome::Success);
}

#[test]
fn failed_creation_is_reported() {
    let outcome = on_write_attempt(&WriteAttempt::CreateFailed {
        detail: String::from("permission denied"),
    });
    assert_eq!(
        outcome,
        SaveOutcome::Failure { message: String::from("Failed while creating file: permission denied") }
    );
}

#[test]
fn failed_write_is_reported() {
    let outcome = on_write_attempt(&WriteAttempt::WriteFailed {
        detail: String::from("disk full"),
    });
    assert_eq!(
        outcome,
        SaveOutcome::Failure { message: String::from("Failed while saving: disk full") }
    );
}
