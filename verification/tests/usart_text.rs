use stm32_lessons::usart::{hello_frame, prompt, EchoTerm, BUF_LENGTH};

#[test]
fn hello_frame_counts_in_decimal() {
    assert_eq!(hello_frame(1), b"\x1b[2K\rhello 1\r".to_vec());
    assert_eq!(hello_frame(42), b"\x1b[2K\rhello 42\r".to_vec());
    assert_eq!(hello_frame(0), b"\x1b[2K\rhello 0\r".to_vec());
    assert_eq!(hello_frame(u32::MAX), b"\x1b[2K\rhello 4294967295\r".to_vec());
}

#[test]
fn prompt_is_three_angles_and_space() {
    assert_eq!(prompt(), b">>> ".to_vec());
}

#[test]
fn echo_terminal_echoes_and_reports_numbered_lines() {
    let mut term = EchoTerm::new();
    for &byte in b"hi" {
        let reply = term.receive(byte);
        assert_eq!(reply.bytes, vec![byte]);
        assert!(reply.show_buffer);
    }
    assert_eq!(term.line_len(), 2);
    assert_eq!(&term.buffer()[0..3], b"hi\0");
    let reply = term.receive(b'\r');
    assert_eq!(reply.bytes, b"\r\n1: hi\r\n>>> ".to_vec());
    assert!(reply.show_buffer);
    assert_eq!(term.line_len(), 0);
    assert!(term.buffer().iter().all(|&b| b == 0));
    let reply = term.receive(b'\r');
    assert_eq!(reply.bytes, b"\r\n2: \r\n>>> ".to_vec());
}

#[test]
fn echo_terminal_keeps_first_63_bytes() {
    let mut term = EchoTerm::new();
    for i in 0..70u32 {
        let byte = b'a' + (i % 26) as u8;
        let reply = term.receive(byte);
        assert_eq!(reply.bytes, vec![byte]);
        assert_eq!(reply.show_buffer, i < (BUF_LENGTH as u32) - 1);
    }
    assert_eq!(term.line_len(), BUF_LENGTH - 1);
    assert_eq!(term.buffer().len(), BUF_LENGTH);
    assert_eq!(term.buffer()[BUF_LENGTH - 1], 0);
    let reply = term.receive(b'\r');
    let mut expected = b"\r\n1: ".to_vec();
    expected.extend((0..63u32).map(|i| b'a' + (i % 26) as u8));
    expected.extend_from_slice(b"\r\n>>> ");
    assert_eq!(reply.bytes, expected);
}
