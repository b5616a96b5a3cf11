use wavy::engine::{frames_needed, outstanding_frames, read_result_frames, sample_buffer_len, write_step};
use wavy::engine::{WriteAction, WriteState};
use wavy::error::{check_return, Error, ErrorKind, EINVAL, ENOENT};

#[test]
fn error_new_keeps_identity() {
    let e = Error::new("snd_pcm_open", ENOENT);
    assert_eq!(e.func(), "snd_pcm_open");
    assert_eq!(e.errno(), Some(ENOENT));
    assert_eq!(e.kind(), ErrorKind::Sys(ENOENT));
}

#[test]
fn error_unsupported_has_no_errno() {
    let e = Error::unsupported("snd_pcm_pause");
    assert_eq!(e.func(), "snd_pcm_pause");
    assert_eq!(e.errno(), None);
    assert_eq!(e.kind(), ErrorKind::Unsupported);
}

#[test]
fn check_return_passes_non_negative_through() {
    assert_eq!(check_return("snd_pcm_writei", 0).unwrap(), 0);
    assert_eq!(check_return("snd_pcm_writei", 1024).unwrap(), 1024);
}

#[test]
fn check_return_translates_negative() {
    let e = check_return("snd_pcm_prepare", -(EINVAL as i64)).unwrap_err();
    assert_eq!(e.func(), "snd_pcm_prepare");
    assert_eq!(e.errno(), Some(EINVAL));
}

#[test]
fn buffer_len_formula() {
    // 2 x period frames x channel count, in samples.
    assert_eq!(sample_buffer_len(1024, 2), 4096);
    assert_eq!(sample_buffer_len(1024, 1), 2048);
    assert_eq!(sample_buffer_len(0, 2), 0);
}

#[test]
fn outstanding_is_floored_and_bounded() {
    assert_eq!(outstanding_frames(2048, 2048), 0);
    assert_eq!(outstanding_frames(2048, 0), 2048);
    assert_eq!(outstanding_frames(2048, 500), 1548);
    assert_eq!(outstanding_frames(2048, 4096), 0);
}

#[test]
fn frames_needed_refills_to_capacity() {
    assert_eq!(frames_needed(2048, 0), 2048);
    assert_eq!(frames_needed(2048, 2048), 0);
    assert_eq!(frames_needed(2048, 1500), 548);
    assert_eq!(frames_needed(2048, 4096), 0);
}

#[test]
fn read_count_degrades_and_clamps() {
    // A failed read is zero frames, by design.
    assert_eq!(read_result_frames(-32, 100, 2), 0);
    // A successful count passes through.
    assert_eq!(read_result_frames(10, 100, 2), 10);
    // A count beyond the buffer's frame capacity is clamped to it.
    assert_eq!(read_result_frames(60, 100, 2), 50);
    assert_eq!(read_result_frames(0, 100, 1), 0);
}

#[test]
fn write_protocol_steps() {
    // A complete write keeps the stream healthy.
    assert_eq!(
        write_step(WriteState::Normal, 100, 100),
        (WriteState::Normal, WriteAction::Done)
    );
    // A short write asks for one recovery and one retry.
    assert_eq!(
        write_step(WriteState::Normal, 100, 99),
        (WriteState::Recovering, WriteAction::RecoverAndRetry)
    );
    // A complete retry resumes.
    assert_eq!(
        write_step(WriteState::Recovering, 100, 100),
        (WriteState::Normal, WriteAction::Done)
    );
    // A short retry escalates: a fatal double underrun.
    assert_eq!(
        write_step(WriteState::Recovering, 100, 0),
        (WriteState::Fatal, WriteAction::Escalate)
    );
}
