//! The console session: state built by the nonce-exchange handshake, and the
//! length-framed, encrypted send/receive exchange that consumes exactly one
//! nonce per direction per operation.

use vstd::prelude::*;

use vstd::utf8::{decode_utf8, encode_utf8, valid_utf8};

use crate::crypto::{bytes_to_string, open_bytes, open_of, seal_bytes, seal_of, KEY_LEN, TAG_LEN};
use crate::nonce::{
    half_and_half, increment_nonce_inplace, spec_increment, spec_reading_nonce, spec_writing_nonce,
};
use crate::wire::{spec_be32_bytes, u32_to_be_bytes};
use crate::NONCE_LEN;

verus! {

/// The ways a console exchange can fail.
#[derive(Clone, Copy, Debug, PartialEq, Eq, Structural)]
pub enum DNSDistConsoleError {
    /// The target address could not be understood; raised by the connection
    /// setup around the session, never by the session itself.
    AddressError,
    /// The transport failed: a short read or write, a lost connection, or a
    /// command whose sealed frame would not fit the 32-bit length header.
    TransportError,
    /// The peer's frame did not authenticate under the current nonce and key,
    /// or its plaintext was not valid text.
    DecodeError,
}

/// An established console session: the two per-direction nonces and the
/// pre-shared key. The byte channel stays with the caller, who moves whole
/// frames between it and the session.
pub struct DNSDistConsole {
    /// 24-byte nonce sealing the next outbound frame; advances once per send.
    pub writing_nonce: Vec<u8>,
    /// 24-byte nonce opening the next inbound frame; advances once per receive.
    pub reading_nonce: Vec<u8>,
    /// 32-byte pre-shared secret, fixed for the session's lifetime.
    pub secret_key: Vec<u8>,
}

/// The frame that carries `payload` on the wire: a 4-byte big-endian length
/// header, then the payload bytes.
pub open spec fn spec_frame(payload: Seq<u8>) -> Seq<u8>
    recommends
        payload.len() <= u32::MAX,
{
    spec_be32_bytes(payload.len() as u32) + payload
}

/// What one inbound frame body yields under a nonce and key: the decrypted
/// text, or nothing when the ciphertext is shorter than the tag, fails
/// authentication, or does not decrypt to valid text.
pub open spec fn spec_open_frame(c: Seq<u8>, nonce: Seq<u8>, key: Seq<u8>) -> Option<Seq<char>> {
    if c.len() < TAG_LEN {
        None
    } else {
        match open_of(c, nonce, key) {
            Some(p) => if valid_utf8(p) {
                Some(decode_utf8(p))
            } else {
                None
            },
            None => None,
        }
    }
}

/// Law: a frame body sealed from a command is opened back to that very
/// command by a receiver holding the same nonce and key.
pub proof fn lemma_seal_open_round_trip(c: Seq<u8>, command: Seq<char>, nonce: Seq<u8>, key: Seq<u8>)
    requires
        c.len() >= TAG_LEN,
        open_of(c, nonce, key) == Some(encode_utf8(command)),
    ensures
        spec_open_frame(c, nonce, key) == Some(command),
{
    vstd::utf8::encode_utf8_valid_utf8(command);
    vstd::utf8::encode_utf8_decode_utf8(command);
}

impl DNSDistConsole {
    /// The sizes the protocol fixes: 24-byte nonces and a 32-byte key.
    pub open spec fn wf(&self) -> bool {
        &&& self.writing_nonce@.len() == NONCE_LEN
        &&& self.reading_nonce@.len() == NONCE_LEN
        &&& self.secret_key@.len() == KEY_LEN
    }

    /// Builds the session state for a freshly completed handshake: the caller
    /// has written its own random `our_nonce` to the channel and read the
    /// peer's `remote_nonce` back. Each direction's nonce takes one half from
    /// each peer, so neither side alone picks any nonce value.
    pub fn new(our_nonce: &Vec<u8>, remote_nonce: &Vec<u8>, key: Vec<u8>) -> (s: DNSDistConsole)
        requires
            our_nonce@.len() == NONCE_LEN,
            remote_nonce@.len() == NONCE_LEN,
            key@.len() == KEY_LEN,
        ensures
            s.wf(),
            s.reading_nonce@ == spec_reading_nonce(our_nonce@, remote_nonce@),
            s.writing_nonce@ == spec_writing_nonce(our_nonce@, remote_nonce@),
            s.secret_key@ == key@,
    {
        let reading_nonce = half_and_half(our_nonce, remote_nonce);
        let writing_nonce = half_and_half(remote_nonce, our_nonce);
        DNSDistConsole { writing_nonce, reading_nonce, secret_key: key }
    }

    /// Seals one command into a length-prefixed frame under the current
    /// writing nonce, then advances that nonce by exactly one. The returned
    /// frame must be written to the channel in full. A command whose sealed
    /// length would overflow the 32-bit header is rejected, and the nonce
    /// stays put.
    pub fn send(&mut self, command: String) -> (r: Result<Vec<u8>, DNSDistConsoleError>)
        requires
            old(self).wf(),
        ensures
            final(self).wf(),
            final(self).reading_nonce@ == old(self).reading_nonce@,
            final(self).secret_key@ == old(self).secret_key@,
            match r {
                Ok(frame) => {
                    &&& encode_utf8(command@).len() + TAG_LEN <= u32::MAX
                    &&& seal_of(
                        encode_utf8(command@),
                        old(self).writing_nonce@,
                        old(self).secret_key@,
                    ).len() == encode_utf8(command@).len() + TAG_LEN
                    &&& frame@ == spec_frame(
                        seal_of(
                            encode_utf8(command@),
                            old(self).writing_nonce@,
                            old(self).secret_key@,
                        ),
                    )
                    &&& open_of(
                        seal_of(
                            encode_utf8(command@),
                            old(self).writing_nonce@,
                            old(self).secret_key@,
                        ),
                        old(self).writing_nonce@,
                        old(self).secret_key@,
                    ) == Some(encode_utf8(command@))
                    &&& final(self).writing_nonce@ == spec_increment(old(self).writing_nonce@)
                },
                Err(e) => {
                    &&& e == DNSDistConsoleError::TransportError
                    &&& encode_utf8(command@).len() + TAG_LEN > u32::MAX
                    &&& final(self).writing_nonce@ == old(self).writing_nonce@
                },
            },
    {
        let bytes: &[u8] = command.as_str().as_bytes();
        if bytes.len() > u32::MAX as usize - TAG_LEN {
            return Err(DNSDistConsoleError::TransportError);
        }
        let mut ciphertext = seal_bytes(bytes, &self.writing_nonce, &self.secret_key);
        let mut frame = u32_to_be_bytes(ciphertext.len() as u32);
        frame.append(&mut ciphertext);
        increment_nonce_inplace(&mut self.writing_nonce);
        Ok(frame)
    }

    /// Opens one inbound frame body under the current reading nonce, then
    /// advances that nonce by exactly one — also when decoding fails, since
    /// the nonce position tracks frames received on the wire, not decode
    /// outcomes. A ciphertext shorter than the tag is refused before any
    /// decryption is attempted.
    pub fn receive(&mut self, ciphertext: Vec<u8>) -> (r: Result<String, DNSDistConsoleError>)
        requires
            old(self).wf(),
        ensures
            final(self).wf(),
            final(self).writing_nonce@ == old(self).writing_nonce@,
            final(self).secret_key@ == old(self).secret_key@,
            final(self).reading_nonce@ == spec_increment(old(self).reading_nonce@),
            match r {
                Ok(s) => spec_open_frame(
                    ciphertext@,
                    old(self).reading_nonce@,
                    old(self).secret_key@,
                ) == Some(s@),
                Err(e) => {
                    &&& e == DNSDistConsoleError::DecodeError
                    &&& spec_open_frame(
                        ciphertext@,
                        old(self).reading_nonce@,
                        old(self).secret_key@,
                    ) is None
                },
            },
    {
        let plain: Option<Vec<u8>> = if ciphertext.len() < TAG_LEN {
            None
        } else {
            open_bytes(&ciphertext, &self.reading_nonce, &self.secret_key)
        };
        increment_nonce_inplace(&mut self.reading_nonce);
        match plain {
            None => Err(DNSDistConsoleError::DecodeError),
            Some(p) => match bytes_to_string(p) {
                None => Err(DNSDistConsoleError::DecodeError),
                Some(s) => Ok(s),
            },
        }
    }
}

} // verus!
