use veddb_client::{
    Command, Error, Exchange, Response, ResponseHeader, SequenceCounter, StatusCode, PROTOCOL_V2,
};

/// A small in-memory server speaking the wire format, for driving the
/// client's exchange logic end to end.
struct FakeServer {
    entries: Vec<(Vec<u8>, Vec<u8>, u64)>,
}

impl FakeServer {
    fn handle(&mut self, frame: &[u8]) -> Vec<u8> {
        let cmd = Command::from_bytes(frame).unwrap();
        let seq = cmd.header.seq;
        let pos = self.entries.iter().position(|e| e.0 == cmd.key);
        let resp = match cmd.header.opcode {
            0x02 => {
                match pos {
                    Some(i) => {
                        self.entries[i].1 = cmd.value.clone();
                        self.entries[i].2 += 1;
                    }
                    None => self.entries.push((cmd.key.clone(), cmd.value.clone(), 1)),
                }
                Response::ok(seq, b"")
            }
            0x03 => match pos {
                Some(i) => Response::ok(seq, &self.entries[i].1),
                None => Response::not_found(seq),
            },
            0x04 => match pos {
                Some(i) => {
                    self.entries.remove(i);
                    Response::ok(seq, b"")
                }
                None => Response::not_found(seq),
            },
            0x05 => match pos {
                Some(i) if self.entries[i].2 == cmd.header.extra => {
                    self.entries[i].1 = cmd.value.clone();
                    self.entries[i].2 += 1;
                    Response::ok(seq, b"")
                }
                Some(_) => Response::new(ResponseHeader::new(StatusCode::VersionMismatch, seq), b"stale"),
                None => Response::not_found(seq),
            },
            _ => Response::error(seq),
        };
        resp.to_bytes(PROTOCOL_V2)
    }
}

fn round_trip(server: &mut FakeServer, cmd: Command) -> Result<Response, Error> {
    let (ex, bytes) = Exchange::begin(cmd, PROTOCOL_V2);
    let wire = server.handle(&bytes);
    let header = &wire[..ex.header_len()];
    let n = ex.payload_len(header)?;
    ex.finish(&wire[..ex.header_len() + n])
}

#[test]
fn set_get_delete_get() {
    let mut server = FakeServer { entries: Vec::new() };
    let mut seq = SequenceCounter::new();
    round_trip(&mut server, Command::set(seq.next_seq(), b"k", b"v")).unwrap();
    let got = round_trip(&mut server, Command::get(seq.next_seq(), b"k")).unwrap();
    assert_eq!(got.payload, b"v".to_vec());
    round_trip(&mut server, Command::delete(seq.next_seq(), b"k")).unwrap();
    let err = round_trip(&mut server, Command::get(seq.next_seq(), b"k")).unwrap_err();
    assert!(matches!(err, Error::Status(StatusCode::NotFound, _)));
}

#[test]
fn stale_cas_fails_and_keeps_value() {
    let mut server = FakeServer { entries: Vec::new() };
    let mut seq = SequenceCounter::new();
    round_trip(&mut server, Command::set(seq.next_seq(), b"k", b"v1")).unwrap();
    round_trip(&mut server, Command::cas(seq.next_seq(), b"k", 1, b"v2")).unwrap();
    let err = round_trip(&mut server, Command::cas(seq.next_seq(), b"k", 1, b"v3")).unwrap_err();
    assert_eq!(err, Error::Status(StatusCode::VersionMismatch, "stale".to_string()));
    let got = round_trip(&mut server, Command::get(seq.next_seq(), b"k")).unwrap();
    assert_eq!(got.payload, b"v2".to_vec());
}
