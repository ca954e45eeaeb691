use rjremote::transfer::{
    chunk_ranges, file_name_for, incoming_file_path, metadata_for, name_or_unknown, resolve_save_dir, FileMetadata,
    IncomingFile, ReceiveAction, ReceiveEvent, ReceiveServer, CHUNK_SIZE, TRANSFER_PORT,
};

fn meta(name: &str, size: u64) -> FileMetadata {
    FileMetadata { filename: name.to_string(), filesize: size }
}

#[test]
fn metadata_line_is_compact_json_with_newline() {
    assert_eq!(meta("a.txt", 5).metadata_line(), "{\"filename\":\"a.txt\",\"filesize\":5}\n");
    assert_eq!(meta("", 0).metadata_line(), "{\"filename\":\"\",\"filesize\":0}\n");
}

#[test]
fn metadata_line_escapes_special_characters() {
    let line = meta("a\"b\\c\nd\u{1}e\u{1f}", 18446744073709551615).metadata_line();
    assert_eq!(
        line,
        "{\"filename\":\"a\\\"b\\\\c\\nd\\u0001e\\u001f\",\"filesize\":18446744073709551615}\n"
    );
}

#[test]
fn metadata_line_matches_serde_json_object() {
    let mut map = serde_json::Map::new();
    map.insert("filename".to_string(), serde_json::Value::String("résumé \t.pdf".to_string()));
    map.insert("filesize".to_string(), serde_json::Value::from(123456u64));
    let expected = serde_json::to_string(&serde_json::Value::Object(map)).unwrap();
    let line = meta("résumé \t.pdf", 123456).metadata_line();
    assert_eq!(line, format!("{}\n", expected));
    let parsed: serde_json::Value = serde_json::from_str(line.trim()).unwrap();
    assert_eq!(parsed["filename"], "résumé \t.pdf");
    assert_eq!(parsed["filesize"], 123456);
}

#[test]
fn file_name_is_last_component_or_unknown() {
    assert_eq!(file_name_for("/tmp/dir/report.pdf"), "report.pdf");
    assert_eq!(file_name_for("notes.txt"), "notes.txt");
    assert_eq!(file_name_for("/usr/bin/"), "bin");
    assert_eq!(file_name_for("/"), "unknown");
    assert_eq!(file_name_for("foo/.."), "unknown");
    assert_eq!(file_name_for(""), "unknown");
}

#[test]
fn metadata_for_path_and_size() {
    let m = metadata_for("/home/u/photo.jpg", 42);
    assert_eq!(m.filename, "photo.jpg");
    assert_eq!(m.filesize, 42);
}

#[test]
fn sent_message_names_file_and_size() {
    assert_eq!(meta("x.bin", 70000).sent_message(), "File 'x.bin' sent successfully (70000 bytes)");
}

#[test]
fn chunk_ranges_split_like_slice_chunks() {
    assert!(chunk_ranges(0).is_empty());
    assert_eq!(chunk_ranges(1), vec![(0, 1)]);
    assert_eq!(chunk_ranges(CHUNK_SIZE), vec![(0, 65536)]);
    assert_eq!(chunk_ranges(CHUNK_SIZE + 1), vec![(0, 65536), (65536, 65537)]);
    let data: Vec<u8> = (0..200000u32).map(|i| (i % 251) as u8).collect();
    let ranges = chunk_ranges(data.len());
    let expected: Vec<(usize, usize)> = {
        let mut v = Vec::new();
        let mut start = 0;
        for c in data.chunks(CHUNK_SIZE) {
            v.push((start, start + c.len()));
            start += c.len();
        }
        v
    };
    assert_eq!(ranges, expected);
}

#[test]
fn chunks_tile_the_buffer() {
    for total in [1usize, 65535, 65536, 65537, 131072, 131073, 500000] {
        let r = chunk_ranges(total);
        assert_eq!(r[0].0, 0);
        assert_eq!(r[r.len() - 1].1, total);
        for w in r.windows(2) {
            assert_eq!(w[0].1, w[1].0);
        }
        for (s, e) in &r {
            assert!(s < e && e - s <= CHUNK_SIZE);
        }
    }
}

#[test]
fn receiver_reads_the_sender_chunks_and_rebuilds_the_file() {
    let data: Vec<u8> = (0..140000u32).map(|i| (i * 7 % 256) as u8).collect();
    let mut incoming = IncomingFile::new(&meta("f", data.len() as u64));
    let mut reads = Vec::new();
    let mut pos = 0;
    while !incoming.is_complete() {
        let n = incoming.next_read_len();
        reads.push((pos, pos + n));
        incoming.accept(&data[pos..pos + n]);
        pos += n;
    }
    assert_eq!(reads, chunk_ranges(data.len()));
    assert_eq!(incoming.into_data(), data);
}

#[test]
fn empty_file_is_complete_at_once() {
    let incoming = IncomingFile::new(&meta("empty", 0));
    assert!(incoming.is_complete());
    assert_eq!(incoming.next_read_len(), 0);
    assert!(incoming.into_data().is_empty());
}

#[test]
fn save_dir_preference_order() {
    let s = |x: &str| Some(x.to_string());
    assert_eq!(resolve_save_dir("/data".to_string(), s("/dl"), s("/home")), "/data");
    assert_eq!(resolve_save_dir(String::new(), s("/dl"), s("/home")), "/dl");
    assert_eq!(resolve_save_dir(String::new(), None, s("/home")), "/home");
    assert_eq!(resolve_save_dir(String::new(), None, None), ".");
}

#[test]
fn incoming_path_joins_save_dir_and_name() {
    assert_eq!(incoming_file_path("/tmp/in", &meta("a.txt", 1)), "/tmp/in/a.txt");
    assert_eq!(incoming_file_path(".", &meta("b", 1)), "./b");
}

fn start(server: &mut ReceiveServer, port: u16, dir: &str) -> ReceiveAction {
    server.step(ReceiveEvent::StartRequested {
        port,
        save_dir: dir.to_string(),
        download_dir: Some("/dl".to_string()),
        home_dir: Some("/home".to_string()),
    })
}

#[test]
fn receive_server_start_default_port_then_already_running() {
    let mut server = ReceiveServer::new();
    assert!(!server.is_running());
    match start(&mut server, 0, "") {
        ReceiveAction::Listen { port, save_dir, reply } => {
            assert_eq!(port, TRANSFER_PORT);
            assert_eq!(save_dir, "/dl");
            assert_eq!(reply, "File receive server started on port 9096");
        }
        _ => panic!("expected Listen"),
    }
    assert!(server.is_running());
    match start(&mut server, 7000, "/x") {
        ReceiveAction::Reply(m) => assert_eq!(m, "Receive server already running"),
        _ => panic!("expected Reply"),
    }
}

#[test]
fn receive_server_listener_failure_allows_restart() {
    let mut server = ReceiveServer::new();
    assert!(matches!(start(&mut server, 7000, "/x"), ReceiveAction::Listen { port: 7000, .. }));
    assert!(matches!(server.step(ReceiveEvent::ListenerFailed), ReceiveAction::Idle));
    assert!(!server.is_running());
    match start(&mut server, 7001, "/y") {
        ReceiveAction::Listen { port, save_dir, reply } => {
            assert_eq!(port, 7001);
            assert_eq!(save_dir, "/y");
            assert_eq!(reply, "File receive server started on port 7001");
        }
        _ => panic!("expected Listen"),
    }
}

#[test]
fn metadata_header_is_a_single_line() {
    for name in ["plain.txt", "two\nlines", "cr\rlf\n", "tab\tand \"quote\"", ""] {
        let line = meta(name, 99).metadata_line();
        assert!(line.starts_with('{'));
        assert!(line.ends_with("}\n"));
        assert_eq!(line.matches('\n').count(), 1);
        assert_eq!(line.trim(), &line[..line.len() - 1]);
    }
}

#[test]
fn missing_component_is_announced_as_unknown() {
    assert_eq!(name_or_unknown(None), "unknown");
    assert_eq!(name_or_unknown(Some("a.txt".to_string())), "a.txt");
}
