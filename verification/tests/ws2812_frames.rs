use stm32_lessons::ws2812::{
    color_frame, next_color_index, palette_color, strip_dma_response, GrbColor, StripDmaResponse,
    COLOR_COUNT, FRAME_LEN, N0, N1,
};

fn decode(frame: &[u16]) -> GrbColor {
    let byte = |start: usize| {
        frame[start..start + 8]
            .iter()
            .fold(0u8, |acc, &d| (acc << 1) | if d == N1 { 1 } else { 0 })
    };
    GrbColor { green: byte(0), red: byte(8), blue: byte(16) }
}

#[test]
fn frame_of_dim_green_matches_the_lesson_table() {
    let expected: [u16; 25] = [
        N0, N0, N0, N0, N0, N0, N1, N0, // G
        N0, N0, N0, N0, N0, N0, N0, N0, // R
        N0, N0, N0, N0, N0, N0, N0, N0, // B
        0,
    ];
    assert_eq!(color_frame(GrbColor { green: 2, red: 0, blue: 0 }), expected.to_vec());
}

#[test]
fn palette_matches_the_lesson_tables() {
    // off, green, red, blue, yellow, cyan, magenta, white
    let on = [
        (false, false, false),
        (true, false, false),
        (false, true, false),
        (false, false, true),
        (true, true, false),
        (true, false, true),
        (false, true, true),
        (true, true, true),
    ];
    for (i, &(g, r, b)) in on.iter().enumerate() {
        let frame = color_frame(palette_color(i as u8));
        assert_eq!(frame.len(), FRAME_LEN);
        assert_eq!(frame[6], if g { N1 } else { N0 });
        assert_eq!(frame[14], if r { N1 } else { N0 });
        assert_eq!(frame[22], if b { N1 } else { N0 });
        for (k, &d) in frame.iter().enumerate() {
            if k == 24 {
                assert_eq!(d, 0);
            } else if k != 6 && k != 14 && k != 22 {
                assert_eq!(d, N0);
            }
        }
    }
}

#[test]
fn frames_round_trip() {
    for &(g, r, b) in &[(0u8, 0u8, 0u8), (255, 255, 255), (0x80, 0x01, 0x5A), (7, 1, 200)] {
        let color = GrbColor { green: g, red: r, blue: b };
        let frame = color_frame(color);
        assert_eq!(frame.len(), 25);
        assert_eq!(frame[24], 0);
        assert_eq!(decode(&frame), color);
    }
    // most significant bit first
    let frame = color_frame(GrbColor { green: 0x80, red: 0x01, blue: 0 });
    assert_eq!(frame[0], N1);
    assert_eq!(frame[15], N1);
    assert_eq!(frame[8], N0);
}

#[test]
fn palette_index_cycles_through_all_colours() {
    let mut index = 1u8;
    let mut seen = vec![];
    for _ in 0..COLOR_COUNT {
        seen.push(index);
        index = next_color_index(index);
    }
    assert_eq!(index, 1);
    seen.sort();
    assert_eq!(seen, (0..COLOR_COUNT).collect::<Vec<_>>());
    assert_eq!(next_color_index(7), 0);
    assert_eq!(next_color_index(200), 0);
}

#[test]
fn strip_dma_response_errors_first() {
    assert_eq!(
        strip_dma_response(true, false, true),
        StripDmaResponse::Abort { transfer_error: true, fifo_error: false }
    );
    assert_eq!(
        strip_dma_response(false, true, false),
        StripDmaResponse::Abort { transfer_error: false, fifo_error: true }
    );
    assert_eq!(strip_dma_response(false, false, true), StripDmaResponse::FrameSent);
    assert_eq!(strip_dma_response(false, false, false), StripDmaResponse::Idle);
}
