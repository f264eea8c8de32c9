use rufs::error::Error;

#[test]
fn errno_values() {
    assert_eq!(Error::Invalid.to_errno(), -22);
    assert_eq!(Error::Io.to_errno(), -5);
    assert_eq!(Error::Busy.to_errno(), -16);
    assert_eq!(Error::NoMemory.to_errno(), -12);
    assert_eq!(Error::Overflow.to_errno(), -75);
    assert_eq!(Error::TimedOut.to_errno(), -110);
}
