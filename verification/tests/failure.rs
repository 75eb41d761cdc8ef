use ntp_responder::failure::{disposition, Disposition, Failure};

#[test]
fn only_the_startup_fetch_is_fatal() {
    assert_eq!(disposition(Failure::StartupFetch), Disposition::Abort);
    assert_eq!(disposition(Failure::RefreshFetch), Disposition::LogAndContinue);
    assert_eq!(disposition(Failure::MalformedRequest), Disposition::LogAndContinue);
    assert_eq!(disposition(Failure::Send), Disposition::LogAndContinue);
}
