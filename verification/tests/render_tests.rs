use termcam::render::{render_frame, Cmd};

#[test]
fn single_row_has_exact_command_sequence() {
    // A 2 x 1 grid: reposition, clear, two coloured cells, one flush, and no
    // line break.
    let buf = vec![1u8, 2, 3, 4, 5, 6];
    let cmds = render_frame(&buf, 2, 1);
    assert_eq!(
        cmds,
        vec![
            Cmd::MoveHome,
            Cmd::ClearAll,
            Cmd::SetBg { r: 1, g: 2, b: 3 },
            Cmd::PutSpace,
            Cmd::SetBg { r: 4, g: 5, b: 6 },
            Cmd::PutSpace,
            Cmd::Flush,
        ]
    );
}

#[test]
fn grid_counts_match_dimensions() {
    // A w x h frame paints exactly w * h cells (one set-colour + one space
    // each) with exactly h - 1 line breaks and one flush.
    for (w, h) in [(2usize, 2usize), (3, 1), (1, 4), (5, 3)] {
        let buf: Vec<u8> = (0..w * h * 3).map(|i| i as u8).collect();
        let cmds = render_frame(&buf, w, h);
        let set_bg = cmds
            .iter()
            .filter(|c| matches!(c, Cmd::SetBg { .. }))
            .count();
        let spaces = cmds.iter().filter(|c| matches!(c, Cmd::PutSpace)).count();
        let breaks = cmds.iter().filter(|c| matches!(c, Cmd::NextLine)).count();
        let flushes = cmds.iter().filter(|c| matches!(c, Cmd::Flush)).count();
        assert_eq!(set_bg, w * h);
        assert_eq!(spaces, w * h);
        assert_eq!(breaks, h - 1);
        assert_eq!(flushes, 1);
        assert_eq!(cmds[0], Cmd::MoveHome);
        assert_eq!(cmds[1], Cmd::ClearAll);
        assert_eq!(*cmds.last().unwrap(), Cmd::Flush);
    }
}

#[test]
fn every_set_colour_is_followed_by_its_space() {
    let buf: Vec<u8> = (0..3 * 4 * 3).map(|i| (i * 11) as u8).collect();
    let cmds = render_frame(&buf, 3, 4);
    for (i, c) in cmds.iter().enumerate() {
        if matches!(c, Cmd::SetBg { .. }) {
            assert_eq!(cmds[i + 1], Cmd::PutSpace);
        }
    }
}

#[test]
fn rows_wrap_at_grid_width() {
    // A 2 x 2 grid: the line break sits between the two rows.
    let buf = vec![9u8; 12];
    let cmds = render_frame(&buf, 2, 2);
    assert_eq!(
        cmds,
        vec![
            Cmd::MoveHome,
            Cmd::ClearAll,
            Cmd::SetBg { r: 9, g: 9, b: 9 },
            Cmd::PutSpace,
            Cmd::SetBg { r: 9, g: 9, b: 9 },
            Cmd::PutSpace,
            Cmd::NextLine,
            Cmd::SetBg { r: 9, g: 9, b: 9 },
            Cmd::PutSpace,
            Cmd::SetBg { r: 9, g: 9, b: 9 },
            Cmd::PutSpace,
            Cmd::Flush,
        ]
    );
}
