use ffxiv_crafting::table_reader::{diff_or_zero, next_row_step, RowStep, TableReader};

const TEST_HEADER: &str = "key,0,1,2\n#,a,b,c,\nint32,int32,int32,string\n0,12,15,\"hello\",\n";

fn read_all(reader: &mut TableReader, chunk: usize) -> Vec<u8> {
    let mut out = Vec::new();
    loop {
        let mut buf = vec![0u8; chunk];
        let n = reader.read(&mut buf);
        if n == 0 {
            break;
        }
        out.extend_from_slice(&buf[..n]);
    }
    out
}

#[test]
fn parses_header() {
    let mut reader = TableReader::new(TEST_HEADER.as_bytes().to_vec());
    assert_eq!(reader.header(), &Vec::<u8>::from("#,a,b,c,\n"), "Parsed header is the wrong line");
    let text = String::from_utf8(read_all(&mut reader, 8192)).unwrap();
    let mut lines = text.split_inclusive('\n');
    assert_eq!(lines.next(), Some("#,a,b,c,\n"), "First line returned is not header");
    assert_eq!(lines.next(), Some("0,12,15,\"hello\",\n"), "First content line is not the proper string");
}

#[test]
fn small_reads_yield_the_same_bytes() {
    let mut reader = TableReader::new(TEST_HEADER.as_bytes().to_vec());
    let text = read_all(&mut reader, 3);
    assert_eq!(text, b"#,a,b,c,\n0,12,15,\"hello\",\n".to_vec());
}

#[test]
fn read_leaves_the_rest_of_the_buffer() {
    let mut reader = TableReader::new(b"k\nh\nt\nx".to_vec());
    let mut buf = vec![9u8; 5];
    assert_eq!(reader.read(&mut buf), 3);
    assert_eq!(buf, vec![b'h', b'\n', b'x', 9, 9]);
}

#[test]
fn diff_or_zero_saturates() {
    assert_eq!(diff_or_zero(5, 3), 2);
    assert_eq!(diff_or_zero(3, 5), 0);
}

struct Source(TableReader);

impl std::io::Read for Source {
    fn read(&mut self, buf: &mut [u8]) -> std::io::Result<usize> {
        let mut chunk = vec![0u8; buf.len()];
        let n = self.0.read(&mut chunk);
        buf[..n].copy_from_slice(&chunk[..n]);
        Ok(n)
    }
}

#[test]
fn csv_compat() {
    let mut reader = csv::ReaderBuilder::new()
        .has_headers(true)
        .from_reader(Source(TableReader::new(TEST_HEADER.as_bytes().to_vec())));
    assert_eq!(
        &csv::StringRecord::from(vec!["#", "a", "b", "c", ""]),
        reader.headers().expect("Error parsing headers")
    );
    let mut record = csv::StringRecord::new();
    reader.read_record(&mut record).expect("Could not get record");
    let a: i32 = record.get(1).unwrap().parse().unwrap();
    let b: i32 = record.get(2).unwrap().parse().unwrap();
    let c = record.get(3).unwrap().to_string();
    assert_eq!((a, b, c), (12, 15, "hello".to_string()));
}

#[test]
fn failed_row_is_an_error_only_before_another_row() {
    assert!(matches!(next_row_step::<u32, &str>(None, Ok(4)), RowStep::Keep(4)));
    assert!(matches!(next_row_step::<u32, &str>(None, Err("bad")), RowStep::Hold("bad")));
    assert!(matches!(next_row_step::<u32, &str>(Some("bad"), Ok(4)), RowStep::Stop("bad")));
    assert!(matches!(next_row_step::<u32, &str>(Some("bad"), Err("worse")), RowStep::Stop("bad")));
}
