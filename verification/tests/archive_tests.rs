use std::io::Write;
use tool_provision::archive::{
    archive_format, entry_steps, extract_archive_unified, tar_steps, unpack_failure, zip_steps,
    ArchiveFormat, ExtractStep,
};
use tool_provision::codec::{decode_xz, ZipEntry};
use tool_provision::error::ErrorKind;

fn sample_zip() -> Vec<u8> {
    let mut writer = zip::ZipWriter::new(std::io::Cursor::new(Vec::new()));
    let dir = zip::write::SimpleFileOptions::default().unix_permissions(0o755);
    writer.add_directory("pandoc-3.7/", dir).unwrap();
    let exe = zip::write::SimpleFileOptions::default()
        .compression_method(zip::CompressionMethod::Deflated)
        .unix_permissions(0o755);
    writer.start_file("pandoc-3.7/bin/pandoc", exe).unwrap();
    writer.write_all(b"#!/bin/sh\necho pandoc 3.7\n").unwrap();
    let doc = zip::write::SimpleFileOptions::default()
        .compression_method(zip::CompressionMethod::Stored)
        .unix_permissions(0o644);
    writer.start_file("pandoc-3.7/README", doc).unwrap();
    writer.write_all(b"read me").unwrap();
    writer.finish().unwrap().into_inner()
}

fn gzip(data: &[u8]) -> Vec<u8> {
    let mut encoder = flate2::write::GzEncoder::new(Vec::new(), flate2::Compression::default());
    encoder.write_all(data).unwrap();
    encoder.finish().unwrap()
}

fn xz(data: &[u8]) -> Vec<u8> {
    let mut out = Vec::new();
    lzma_rs::xz_compress(&mut &data[..], &mut out).unwrap();
    out
}

#[test]
fn format_goes_by_the_extension() {
    assert_eq!(archive_format("pandoc-3.7-windows-x86_64.zip"), Ok(ArchiveFormat::Zip));
    assert_eq!(archive_format("pandoc-3.7-linux-amd64.tar.gz"), Ok(ArchiveFormat::TarGz));
    assert_eq!(archive_format("typst-x86_64-unknown-linux-musl.tar.xz"), Ok(ArchiveFormat::TarXz));
    assert_eq!(archive_format("a.zip"), Ok(ArchiveFormat::Zip));
    assert_eq!(archive_format(".tar.gz"), Ok(ArchiveFormat::TarGz));
    assert_eq!(archive_format(".tar.xz"), Ok(ArchiveFormat::TarXz));
    assert_eq!(archive_format("x.tar.zip"), Ok(ArchiveFormat::Zip));
    assert_eq!(archive_format("x.zip.tar.gz"), Ok(ArchiveFormat::TarGz));
}

#[test]
fn other_names_are_unsupported() {
    for (name, message) in [
        ("pandoc.msi", "Unsupported archive format: msi"),
        ("pandoc.pkg", "Unsupported archive format: pkg"),
        ("pandoc", "Unsupported archive format: "),
        ("", "Unsupported archive format: "),
        (".zip", "Unsupported archive format: "),
        ("..", "Unsupported archive format: "),
        ("archive.", "Unsupported archive format: "),
        ("archive.ZIP", "Unsupported archive format: ZIP"),
        ("data.gz", "Unsupported .gz format: data.gz"),
        ("data.xz", "Unsupported .xz format: data.xz"),
        ("tar.gz", "Unsupported .gz format: tar.gz"),
        ("a.gz", "Unsupported .gz format: a.gz"),
        ("x.tar.y.gz", "Unsupported .gz format: x.tar.y.gz"),
        ("a.tar.b.gz", "Unsupported .gz format: a.tar.b.gz"),
        ("a.tar.b.xz", "Unsupported .xz format: a.tar.b.xz"),
        ("a.tar.gz.bak", "Unsupported archive format: bak"),
        ("a.tar.GZ", "Unsupported archive format: GZ"),
        ("pandoc-3.7.0.2-windows-x86_64.msi", "Unsupported archive format: msi"),
        ("x.tar", "Unsupported archive format: tar"),
        ("x.tar.bz2", "Unsupported archive format: bz2"),
    ] {
        let e = archive_format(name).unwrap_err();
        assert_eq!(e.kind, ErrorKind::UnsupportedFormat, "{:?}", name);
        assert_eq!(e.message, message, "{:?}", name);
    }
}

#[test]
fn format_agrees_with_std_path_extension() {
    for name in
        ["a.zip", ".zip", "..", "a.", "a", ".a.b", "a.b.c", "x.tar.gz", "a..b", "...", ".x.", "x.tar.y.gz"]
    {
        let ext = std::path::Path::new(name).extension().and_then(|e| e.to_str()).unwrap_or("");
        let want = if name.ends_with(".tar.gz") {
            Some(ArchiveFormat::TarGz)
        } else if name.ends_with(".tar.xz") {
            Some(ArchiveFormat::TarXz)
        } else if ext == "zip" {
            Some(ArchiveFormat::Zip)
        } else {
            None
        };
        assert_eq!(archive_format(name).ok(), want, "{:?}", name);
    }
}

#[test]
fn entry_steps_for_file_and_directory() {
    let file = ZipEntry { name: "bin/pandoc".to_string(), unix_mode: Some(0o100755), data: vec![1, 2] };
    assert_eq!(
        entry_steps(file),
        vec![
            ExtractStep::WriteFile { name: "bin/pandoc".to_string(), data: vec![1, 2] },
            ExtractStep::SetMode { name: "bin/pandoc".to_string(), mode: 0o100755 },
        ]
    );
    let dir = ZipEntry { name: "bin/".to_string(), unix_mode: None, data: Vec::new() };
    assert_eq!(entry_steps(dir), vec![ExtractStep::MakeDir { name: "bin/".to_string() }]);
    let plain = ZipEntry { name: "README".to_string(), unix_mode: None, data: vec![7] };
    assert_eq!(entry_steps(plain), vec![ExtractStep::WriteFile { name: "README".to_string(), data: vec![7] }]);
}

#[test]
fn zip_is_laid_out_entry_by_entry() {
    let plan = zip_steps(sample_zip());
    assert_eq!(plan.failure, None);
    assert_eq!(plan.steps.len(), 7);
    assert_eq!(plan.steps[0], ExtractStep::CreateTarget);
    assert_eq!(plan.steps[1], ExtractStep::MakeDir { name: "pandoc-3.7/".to_string() });
    match &plan.steps[2] {
        ExtractStep::SetMode { name, mode } => {
            assert_eq!(name, "pandoc-3.7/");
            assert_eq!(mode & 0o777, 0o755);
        }
        other => panic!("unexpected step {:?}", other),
    }
    assert_eq!(
        plan.steps[3],
        ExtractStep::WriteFile {
            name: "pandoc-3.7/bin/pandoc".to_string(),
            data: b"#!/bin/sh\necho pandoc 3.7\n".to_vec(),
        }
    );
    match &plan.steps[4] {
        ExtractStep::SetMode { name, mode } => {
            assert_eq!(name, "pandoc-3.7/bin/pandoc");
            assert_eq!(mode & 0o777, 0o755);
            assert_ne!(mode & 0o111, 0);
        }
        other => panic!("unexpected step {:?}", other),
    }
    assert_eq!(
        plan.steps[5],
        ExtractStep::WriteFile { name: "pandoc-3.7/README".to_string(), data: b"read me".to_vec() }
    );
    match &plan.steps[6] {
        ExtractStep::SetMode { name, mode } => {
            assert_eq!(name, "pandoc-3.7/README");
            assert_eq!(mode & 0o777, 0o644);
        }
        other => panic!("unexpected step {:?}", other),
    }
}

#[test]
fn the_same_archive_gives_the_same_steps() {
    let first = zip_steps(sample_zip());
    let second = zip_steps(sample_zip());
    assert_eq!(first, second);
}

#[test]
fn empty_zip_only_creates_the_target() {
    let bytes = zip::ZipWriter::new(std::io::Cursor::new(Vec::new())).finish().unwrap().into_inner();
    let plan = zip_steps(bytes);
    assert_eq!(plan.failure, None);
    assert_eq!(plan.steps, vec![ExtractStep::CreateTarget]);
}

#[test]
fn broken_zip_is_an_io_error() {
    let plan = zip_steps(b"this is no zip archive".to_vec());
    assert_eq!(plan.steps, vec![ExtractStep::CreateTarget]);
    let e = plan.failure.unwrap();
    assert_eq!(e.kind, ErrorKind::IoError);
    assert!(e.message.starts_with("Failed to read ZIP archive: "), "{}", e.message);
}

#[test]
fn zip_with_a_damaged_entry_writes_nothing() {
    let mut bytes = sample_zip();
    // Damage the content of the deflated entry, which follows its local header.
    let at = bytes.windows(21).position(|w| w == b"pandoc-3.7/bin/pandoc").unwrap() + 21;
    for b in &mut bytes[at..at + 8] {
        *b ^= 0xff;
    }
    let plan = zip_steps(bytes);
    let e = plan.failure.unwrap();
    assert_eq!(e.kind, ErrorKind::IoError);
    assert!(e.message.starts_with("Failed to read file from archive: "), "{}", e.message);
    assert_eq!(plan.steps, vec![ExtractStep::CreateTarget]);
}

#[test]
fn tar_steps_unpack_or_fail() {
    let plan = tar_steps(Ok(vec![1, 2, 3]), ArchiveFormat::TarGz);
    assert_eq!(plan.failure, None);
    assert_eq!(
        plan.steps,
        vec![
            ExtractStep::CreateTarget,
            ExtractStep::UnpackTar { data: vec![1, 2, 3], format: ArchiveFormat::TarGz },
        ]
    );

    let plan = tar_steps(Err("corrupt".to_string()), ArchiveFormat::TarXz);
    assert_eq!(plan.steps, vec![ExtractStep::CreateTarget]);
    let e = plan.failure.unwrap();
    assert_eq!(e.kind, ErrorKind::IoError);
    assert_eq!(e.message, "Failed to decompress XZ: corrupt");

    let plan = tar_steps(Err("corrupt".to_string()), ArchiveFormat::TarGz);
    assert_eq!(plan.failure.unwrap().message, "Failed to extract TAR.GZ archive: corrupt");
}

#[test]
fn unpack_failures_name_the_format() {
    let e = unpack_failure(ArchiveFormat::TarGz, "disk full");
    assert_eq!((e.kind, e.message.as_str()), (ErrorKind::IoError, "Failed to extract TAR.GZ archive: disk full"));
    let e = unpack_failure(ArchiveFormat::TarXz, "disk full");
    assert_eq!((e.kind, e.message.as_str()), (ErrorKind::IoError, "Failed to extract TAR.XZ archive: disk full"));
    let e = unpack_failure(ArchiveFormat::Zip, "disk full");
    assert_eq!((e.kind, e.message.as_str()), (ErrorKind::IoError, "Failed to read ZIP archive: disk full"));
}

#[test]
fn xz_data_is_decoded() {
    let data = b"some bytes for the stream".to_vec();
    assert_eq!(decode_xz(&xz(&data)), Ok(data));
    assert!(decode_xz(&b"no stream at all".to_vec()).is_err());
    assert!(decode_xz(&Vec::new()).is_err());
}

#[test]
fn xz_stream_with_a_footer_of_ff_gives_an_error_and_no_panic() {
    let refusal = "xz error: the size field of the stream footer is out of range";
    for data in [&b""[..], &b"some content"[..], &[0xff; 40][..]] {
        let mut stream = xz(data);
        let n = stream.len();
        for b in &mut stream[n - 8..n - 4] {
            *b = 0xff;
        }
        assert_eq!(decode_xz(&stream), Err(refusal.to_string()));
        let plan = extract_archive_unified("typst.tar.xz", stream);
        assert_eq!(plan.steps, vec![ExtractStep::CreateTarget]);
        let e = plan.failure.unwrap();
        assert_eq!(e.kind, ErrorKind::IoError);
        assert_eq!(e.message, format!("Failed to decompress XZ: {}", refusal));
    }
}

#[test]
fn a_footer_of_ff_before_more_data_gives_an_error_and_no_panic() {
    let mut stream = xz(b"content");
    let n = stream.len();
    for b in &mut stream[n - 8..n - 4] {
        *b = 0xff;
    }
    stream.extend_from_slice(&[0xff, 0xff, 0xff, 0xff, 1, 2, 3]);
    assert_eq!(
        decode_xz(&stream),
        Err("xz error: the size field of the stream footer is out of range".to_string())
    );
}

#[test]
fn a_footer_that_is_merely_wrong_is_the_decoders_error() {
    let mut stream = xz(b"");
    let n = stream.len();
    stream[n - 8] ^= 0x01;
    let e = decode_xz(&stream).unwrap_err();
    assert!(e.starts_with("xz error: Invalid index size"), "{}", e);
}

#[test]
fn sound_xz_streams_that_hold_runs_of_ff_are_decoded() {
    for len in [4usize, 5, 8, 64, 1500] {
        let data = vec![0xffu8; len];
        let stream = xz(&data);
        assert!(stream.windows(4).any(|w| w == [0xff; 4]), "{}", len);
        assert_eq!(decode_xz(&stream), Ok(data), "{}", len);
    }
    let mut mixed = b"head".to_vec();
    mixed.extend_from_slice(&[0xff; 9]);
    mixed.extend_from_slice(b"middle");
    mixed.extend_from_slice(&[0xff; 4]);
    mixed.extend_from_slice(b"tail");
    assert_eq!(decode_xz(&xz(&mixed)), Ok(mixed.clone()));

    let plan = extract_archive_unified("typst-x86_64-unknown-linux-musl.tar.xz", xz(&mixed));
    assert_eq!(plan.failure, None);
    assert_eq!(
        plan.steps,
        vec![ExtractStep::CreateTarget, ExtractStep::UnpackTar { data: mixed, format: ArchiveFormat::TarXz }]
    );
}

#[test]
fn damaged_xz_streams_that_hold_runs_of_ff_are_the_decoders_error() {
    let data = vec![0xffu8; 32];
    let mut stream = xz(&data);
    let n = stream.len();
    stream.truncate(n - 5);
    assert!(decode_xz(&stream).is_err());
    let mut stream = xz(&data);
    stream[3] ^= 0x40;
    assert!(decode_xz(&stream).is_err());
    let mut stream = xz(&data);
    stream.extend_from_slice(&[0xff; 8]);
    assert!(decode_xz(&stream).is_err());
}

#[test]
fn tar_gz_is_decompressed_before_it_is_unpacked() {
    let tar = b"not really a tar archive, but any bytes will do".to_vec();
    let packed = gzip(&tar);
    assert_ne!(packed, tar);
    let plan = extract_archive_unified("pandoc-3.7-linux-amd64.tar.gz", packed);
    assert_eq!(plan.failure, None);
    assert_eq!(
        plan.steps,
        vec![ExtractStep::CreateTarget, ExtractStep::UnpackTar { data: tar, format: ArchiveFormat::TarGz }]
    );
}

#[test]
fn tar_xz_is_decompressed_before_it_is_unpacked() {
    let tar = vec![42u8; 3000];
    let packed = xz(&tar);
    assert_ne!(packed, tar);
    let plan = extract_archive_unified("typst.tar.xz", packed);
    assert_eq!(plan.failure, None);
    assert_eq!(
        plan.steps,
        vec![ExtractStep::CreateTarget, ExtractStep::UnpackTar { data: tar, format: ArchiveFormat::TarXz }]
    );
}

#[test]
fn data_in_another_format_is_an_io_error() {
    let plan = extract_archive_unified("a.tar.gz", b"plain text".to_vec());
    assert_eq!(plan.steps, vec![ExtractStep::CreateTarget]);
    let e = plan.failure.unwrap();
    assert_eq!(e.kind, ErrorKind::IoError);
    assert!(e.message.starts_with("Failed to extract TAR.GZ archive: "), "{}", e.message);

    let plan = extract_archive_unified("a.tar.xz", gzip(b"gzip, not xz"));
    assert_eq!(plan.steps, vec![ExtractStep::CreateTarget]);
    let e = plan.failure.unwrap();
    assert_eq!(e.kind, ErrorKind::IoError);
    assert!(e.message.starts_with("Failed to decompress XZ: "), "{}", e.message);

    let plan = extract_archive_unified("a.zip", gzip(b"gzip, not zip"));
    assert_eq!(plan.failure.unwrap().kind, ErrorKind::IoError);
}

#[test]
fn dispatch_by_name_reaches_the_zip_steps() {
    let plan = extract_archive_unified("pandoc-3.7-windows-x86_64.zip", sample_zip());
    assert_eq!(plan, zip_steps(sample_zip()));
}

#[test]
fn unsupported_name_creates_the_target_and_fails() {
    let plan = extract_archive_unified("pandoc-3.7-windows-x86_64.msi", sample_zip());
    assert_eq!(plan.steps, vec![ExtractStep::CreateTarget]);
    let e = plan.failure.unwrap();
    assert_eq!(e.kind, ErrorKind::UnsupportedFormat);
    assert_eq!(e.message, "Unsupported archive format: msi");
}
