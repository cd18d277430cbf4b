use zx_exception::stdio::{
    FsError, PollStatus, Stdin, Stdout, TCGETS, TIOCGPGRP, TIOCGWINSZ, TIOCSPGRP,
};

#[test]
fn empty_source_asks_again_and_keeps_what_came() {
    let mut stdin = Stdin::new();
    assert!(!stdin.can_read());
    let mut buf = [9u8; 4];
    assert_eq!(stdin.read_at(0, &mut buf, b"hi"), Err(FsError::Again));
    assert_eq!(buf, [9u8; 4]);
    assert!(stdin.can_read());
    // what is handed in while a character waits is not looked at
    assert_eq!(stdin.read_at(0, &mut buf, b"zzz"), Ok(1));
    assert_eq!(buf, [b'h', 9, 9, 9]);
    assert_eq!(stdin.read_at(7, &mut buf, b""), Ok(1));
    assert_eq!(buf, [b'i', 9, 9, 9]);
    assert!(!stdin.can_read());
    assert_eq!(stdin.read_at(0, &mut buf, b""), Err(FsError::Again));
    assert!(!stdin.can_read());
    assert_eq!(buf, [b'i', 9, 9, 9]);
}

#[test]
fn buffer_is_first_in_first_out() {
    let mut stdin = Stdin::default();
    stdin.push('a');
    stdin.push('b');
    stdin.fill(&[0x63, 0xff]);
    assert_eq!(stdin.pop(), 'a');
    assert_eq!(stdin.pop(), 'b');
    assert_eq!(stdin.pop(), 'c');
    assert_eq!(stdin.pop(), '\u{ff}');
    assert!(!stdin.can_read());
}

#[test]
fn wide_character_is_cut_to_a_byte() {
    let mut stdin = Stdin::new();
    stdin.push('\u{20ac}');
    stdin.push('\u{ff}');
    let mut buf = [0u8; 1];
    assert_eq!(stdin.read_at(0, &mut buf, &[]), Ok(1));
    assert_eq!(buf[0], 0xac);
    assert_eq!(stdin.read_at(0, &mut buf, &[]), Ok(1));
    assert_eq!(buf[0], 0xff);
}

#[test]
fn poll_reports_readiness_only() {
    let mut stdin = Stdin::new();
    assert_eq!(stdin.poll(), Ok(PollStatus { read: false, write: false, error: false }));
    stdin.push('x');
    assert_eq!(stdin.poll(), Ok(PollStatus { read: true, write: false, error: false }));
    assert_eq!(stdin.poll(), Ok(PollStatus { read: true, write: false, error: false }));
    assert_eq!(stdin.pop(), 'x');
    assert_eq!(Stdout.poll(), Ok(PollStatus { read: false, write: true, error: false }));
}

#[test]
fn sink_accepts_everything() {
    assert_eq!(Stdout.write_at(0, b"hello"), Ok(5));
    assert_eq!(Stdout.write_at(123, b""), Ok(0));
    assert_eq!(Stdout::default().write_at(0, &[0xff, 0xfe]), Ok(2));
}

#[test]
fn io_control_pretends_to_be_a_terminal() {
    assert_eq!((TCGETS, TIOCGPGRP, TIOCSPGRP, TIOCGWINSZ), (0x5401, 0x540f, 0x5410, 0x5413));
    for cmd in [0x5401u32, 0x5410, 0x5413] {
        let reply = Stdout.io_control(cmd, 0).unwrap();
        assert_eq!((reply.value, reply.store), (0, None));
    }
    let reply = Stdout.io_control(0x540f, 0x1000).unwrap();
    assert_eq!((reply.value, reply.store), (0, Some(0)));
    for cmd in [0u32, 0x5400, 0x5402, 0x540e, 0x5411, 0x5412, 0x5414, 0x5450, 0xffff_ffff] {
        assert_eq!(Stdout.io_control(cmd, 0).err(), Some(FsError::NotSupported));
    }
}
