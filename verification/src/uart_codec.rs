//! Byte pairs on the host side of the 9-bit ASIC UART.
//!
//! The host sends a 9-bit word as its low byte followed by bit 8.

use vstd::prelude::*;

verus! {

/// The 9-bit word of a byte pair.
pub open spec fn paired_word(low_byte: u8, bit_8: u8) -> u16 {
    (low_byte + 256 * bit_8) as u16
}

/// What is decoded from `input` by a decoder that holds `pending` and has room for
/// `room` more words: the low byte that is held afterwards, and the words.
///
/// A byte above 1 cannot be a bit 8 and becomes the next low byte. Once there is no
/// more room, a single remaining byte is held as a low byte where none is held yet;
/// everything else that remains is dropped.
pub open spec fn decoded(pending: Option<u8>, input: Seq<u8>, room: nat) -> (Option<u8>, Seq<u16>)
    decreases input.len(),
{
    if input.len() == 0 {
        (pending, Seq::empty())
    } else if room == 0 {
        (
            if pending is None && input.len() == 1 {
                Some(input[0])
            } else {
                pending
            },
            Seq::empty(),
        )
    } else {
        let byte = input[0];
        let rest = input.drop_first();
        match pending {
            None => decoded(Some(byte), rest, room),
            Some(low_byte) => if byte <= 1 {
                let (held, words) = decoded(None, rest, (room - 1) as nat);
                (held, seq![paired_word(low_byte, byte)] + words)
            } else {
                decoded(Some(byte), rest, room)
            },
        }
    }
}

/// Decoder of the byte pairs of one host connection.
pub struct NineBitPairDecoder {
    pending_low_byte: Option<u8>,
}

impl View for NineBitPairDecoder {
    type V = Option<u8>;

    /// The low byte that waits for its bit 8.
    closed spec fn view(&self) -> Option<u8> {
        self.pending_low_byte
    }
}

impl Default for NineBitPairDecoder {
    fn default() -> (decoder: Self)
        ensures
            decoder@ is None,
    {
        Self::new()
    }
}

impl NineBitPairDecoder {
    /// Starts between two pairs.
    pub fn new() -> (decoder: Self)
        ensures
            decoder@ is None,
    {
        NineBitPairDecoder { pending_low_byte: None }
    }

    /// Decodes pairs of low byte and bit 8 into 9-bit words at the front of
    /// `output`, and returns how many there are. A pair that is split across two
    /// packets is kept. An invalid bit 8 becomes the next low byte, so that a lost
    /// byte does not shift the stream for good.
    pub fn decode(&mut self, input: &[u8], output: &mut [u16]) -> (count: usize)
        ensures
            ({
                let (held, words) = decoded(old(self)@, input@, old(output)@.len());
                &&& final(self)@ == held
                &&& count == words.len()
                &&& final(output)@ == words + old(output)@.skip(words.len() as int)
            }),
    {
        let ghost whole = decoded(self@, input@, output@.len());
        let ghost blank = output@;
        let mut index: usize = 0;
        let mut count: usize = 0;
        let ghost mut words = Seq::<u16>::empty();

        assert(input@.skip(0) =~= input@);
        assert(blank.skip(0) =~= blank);
        while index < input.len() && count < output.len()
            invariant
                index <= input@.len(),
                count <= output@.len(),
                count == words.len(),
                output@.len() == blank.len(),
                output@ =~= words + blank.skip(count as int),
                ({
                    let (held, rest) = decoded(
                        self@,
                        input@.skip(index as int),
                        (blank.len() - count) as nat,
                    );
                    whole == (held, words + rest)
                }),
            decreases input@.len() - index,
        {
            let byte = input[index];
            let ghost remaining = input@.skip(index as int);
            let ghost (_, rest) = decoded(self@, remaining, (blank.len() - count) as nat);
            assert(remaining[0] == byte);
            assert(remaining.drop_first() =~= input@.skip(index + 1));
            match self.pending_low_byte {
                Some(low_byte) if byte <= 1 => {
                    let word = low_byte as u16 | ((byte as u16) << 8);
                    assert(word == paired_word(low_byte, byte)) by {
                        assert(low_byte as u16 | ((byte as u16) << 8) == low_byte + 256 * byte)
                            by (bit_vector)
                            requires
                                byte <= 1,
                        ;
                    }
                    output[count] = word;
                    count = count + 1;
                    self.pending_low_byte = None;
                    proof {
                        assert(words + rest =~= words.push(word) + rest.drop_first());
                        words = words.push(word);
                        assert(rest.drop_first() =~= decoded(
                            self@,
                            remaining.drop_first(),
                            (blank.len() - count) as nat,
                        ).1);
                    }
                },
                _ => {
                    self.pending_low_byte = Some(byte);
                },
            }
            index = index + 1;
        }
        if input.len() - index == 1 && self.pending_low_byte.is_none() {
            self.pending_low_byte = Some(input[index]);
        }
        count
    }
}

/// The part of a received word that is passed on to the host.
pub open spec fn low_byte(word: u16) -> u8 {
    (word % 256) as u8
}

/// Responses carry only the low eight data bits.
pub fn response_byte(word: u16) -> (byte: u8)
    ensures
        byte == low_byte(word),
        byte == word % 256,
{
    assert(word as u8 == (word % 256) as u8) by (bit_vector);
    word as u8
}

/// A response drops the ninth bit and nothing else.
pub proof fn law_response_drops_only_bit_8(low: u8, bit_8: u8)
    requires
        bit_8 <= 1,
    ensures
        low_byte(paired_word(low, bit_8)) == low,
{
}

/// The byte pairs that the host sends for `words`.
pub open spec fn encoded(words: Seq<u16>) -> Seq<u8>
    decreases words.len(),
{
    if words.len() == 0 {
        Seq::empty()
    } else {
        seq![low_byte(words[0]), (words[0] / 256) as u8] + encoded(words.drop_first())
    }
}

/// Whether every word has at most nine bits.
pub open spec fn nine_bits(words: Seq<u16>) -> bool {
    forall|i: int| 0 <= i < words.len() ==> #[trigger] words[i] < 512
}

/// What is decoded from `input` where there is always room for another word.
pub open spec fn streamed(pending: Option<u8>, input: Seq<u8>) -> (Option<u8>, Seq<u16>)
    decreases input.len(),
{
    if input.len() == 0 {
        (pending, Seq::empty())
    } else {
        let byte = input[0];
        let rest = input.drop_first();
        match pending {
            Some(low) if byte <= 1 => {
                let (held, words) = streamed(None, rest);
                (held, seq![paired_word(low, byte)] + words)
            },
            _ => streamed(Some(byte), rest),
        }
    }
}

/// Whether `room` words are enough for every input of `length` bytes.
pub open spec fn fits(pending: Option<u8>, length: nat, room: nat) -> bool {
    (if pending is Some {
        1nat
    } else {
        0nat
    }) + length <= 2 * room + 1
}

/// With room for a word for every two bytes nothing is lost.
pub proof fn law_decoding_loses_nothing(pending: Option<u8>, input: Seq<u8>, room: nat)
    requires
        fits(pending, input.len(), room),
    ensures
        decoded(pending, input, room) == streamed(pending, input),
    decreases input.len(),
{
    if input.len() > 0 {
        let byte = input[0];
        let rest = input.drop_first();
        if room == 0 {
            assert(rest =~= Seq::<u8>::empty());
            assert(streamed(Some(byte), rest) == (Some(byte), Seq::<u16>::empty()));
        } else if pending is Some && byte <= 1 {
            law_decoding_loses_nothing(None, rest, (room - 1) as nat);
        } else {
            law_decoding_loses_nothing(Some(byte), rest, room);
        }
    }
}

/// A stream may be cut into packets anywhere: decoding them one after the other
/// gives the same words, and the same byte held back.
pub proof fn law_packets_may_split_pairs(pending: Option<u8>, first: Seq<u8>, second: Seq<u8>)
    ensures
        streamed(pending, first + second) == {
            let (held, words) = streamed(pending, first);
            let (left, more) = streamed(held, second);
            (left, words + more)
        },
    decreases first.len(),
{
    let whole = first + second;
    let (held, words) = streamed(pending, first);
    let (left, more) = streamed(held, second);
    if first.len() == 0 {
        assert(whole =~= second);
        assert(words + more =~= more);
    } else {
        let byte = first[0];
        let rest = first.drop_first();
        assert(whole.drop_first() =~= rest + second);
        match pending {
            Some(low) if byte <= 1 => {
                law_packets_may_split_pairs(None, rest, second);
                let after = streamed(None, rest).1;
                assert(seq![paired_word(low, byte)] + (after + more) =~= words + more);
            },
            _ => law_packets_may_split_pairs(Some(byte), rest, second),
        }
    }
}

proof fn encoded_front(words: Seq<u16>)
    requires
        words.len() > 0,
        nine_bits(words),
    ensures
        nine_bits(words.drop_first()),
        encoded(words).len() >= 2,
        encoded(words)[0] == low_byte(words[0]),
        encoded(words)[1] == words[0] / 256,
        encoded(words)[1] <= 1,
        encoded(words).drop_first().drop_first() == encoded(words.drop_first()),
        paired_word(low_byte(words[0]), encoded(words)[1]) == words[0],
{
    let rest = words.drop_first();
    assert forall|i: int| 0 <= i < rest.len() implies #[trigger] rest[i] < 512 by {
        assert(rest[i] == words[i + 1]);
    }
    assert(encoded(words).drop_first().drop_first() =~= encoded(rest));
}

/// Words that the host sends as byte pairs arrive as they are.
pub proof fn law_encoded_words_are_decoded(words: Seq<u16>, room: nat)
    requires
        nine_bits(words),
        words.len() <= room,
    ensures
        decoded(None, encoded(words), room) == (None::<u8>, words),
    decreases words.len(),
{
    if words.len() > 0 {
        encoded_front(words);
        let pairs = encoded(words);
        let rest = words.drop_first();
        law_encoded_words_are_decoded(rest, (room - 1) as nat);
        assert(seq![words[0]] + rest =~= words);
        reveal_with_fuel(decoded, 3);
    }
}

/// A decoder that is out of step gets back in step with the first word whose low
/// byte cannot be a bit 8: from there on every word arrives as it was sent.
pub proof fn law_lost_byte_resynchronizes(stray: u8, words: Seq<u16>, mark: int)
    requires
        nine_bits(words),
        0 <= mark < words.len(),
        low_byte(words[mark]) > 1,
    ensures
        ({
            let (held, arrived) = streamed(Some(stray), encoded(words));
            &&& held is None
            &&& arrived.len() == words.len()
            &&& forall|i: int| mark <= i < words.len() ==> #[trigger] arrived[i] == words[i]
        }),
    decreases words.len(),
{
    encoded_front(words);
    let pairs = encoded(words);
    let rest = words.drop_first();
    reveal_with_fuel(streamed, 3);
    let (_, arrived) = streamed(Some(stray), pairs);
    if pairs[0] > 1 {
        let room = rest.len() + encoded(rest).len();
        law_encoded_words_are_decoded(rest, room);
        law_decoding_loses_nothing(None, encoded(rest), room);
        assert(arrived =~= words);
    } else {
        law_lost_byte_resynchronizes(pairs[1], rest, mark - 1);
        let (_, later) = streamed(Some(pairs[1]), encoded(rest));
        assert forall|i: int| mark <= i < words.len() implies #[trigger] arrived[i] == words[i] by {
            assert(arrived[i] == later[i - 1]);
            assert(words[i] == rest[i - 1]);
        }
    }
}

/// Every decoded word has at most nine bits.
pub proof fn law_decoded_words_have_nine_bits(pending: Option<u8>, input: Seq<u8>, room: nat)
    ensures
        nine_bits(decoded(pending, input, room).1),
        decoded(pending, input, room).1.len() <= room,
    decreases input.len(),
{
    if input.len() > 0 && room > 0 {
        let byte = input[0];
        let rest = input.drop_first();
        if pending is Some && byte <= 1 {
            law_decoded_words_have_nine_bits(None, rest, (room - 1) as nat);
        } else {
            law_decoded_words_have_nine_bits(Some(byte), rest, room);
        }
    }
}

/// Decoding goes byte by byte: a byte of 0 or 1 behind a held low byte completes the
/// word that they make, and every other byte is the one that is held next.
pub proof fn law_each_byte_completes_or_starts_a_word(pending: Option<u8>, input: Seq<u8>, byte: u8)
    ensures
        streamed(pending, Seq::empty()) == (pending, Seq::<u16>::empty()),
        ({
            let (held, words) = streamed(pending, input);
            streamed(pending, input.push(byte)) == match held {
                Some(low) if byte <= 1 => (None, words.push((low + 256 * byte) as u16)),
                _ => (Some(byte), words),
            }
        }),
{
    let (held, words) = streamed(pending, input);
    let single = seq![byte];
    assert(input.push(byte) =~= input + single);
    law_packets_may_split_pairs(pending, input, single);
    assert(single.drop_first() =~= Seq::<u8>::empty());
    reveal_with_fuel(streamed, 2);
    match held {
        Some(low) if byte <= 1 => {
            let last = seq![paired_word(low, byte)] + Seq::<u16>::empty();
            assert(words + last =~= words.push(paired_word(low, byte)));
        },
        _ => {
            assert(words + Seq::<u16>::empty() =~= words);
        },
    }
}

/// Where the room is used up by `input`, nothing that follows becomes a word. A single
/// byte that follows is held for the next call unless one is held already; more bytes
/// than that are dropped.
pub proof fn law_bytes_without_room_are_dropped(
    pending: Option<u8>,
    input: Seq<u8>,
    beyond: Seq<u8>,
    room: nat,
)
    requires
        beyond.len() > 0,
        streamed(pending, input).1.len() == room,
        input.len() == 0 || streamed(pending, input.drop_last()).1.len() < room,
    ensures
        ({
            let (held, words) = streamed(pending, input);
            decoded(pending, input + beyond, room) == (
                if held is None && beyond.len() == 1 {
                    Some(beyond[0])
                } else {
                    held
                },
                words,
            )
        }),
    decreases input.len(),
{
    let whole = input + beyond;
    if input.len() == 0 {
        assert(whole =~= beyond);
    } else {
        let byte = input[0];
        let rest = input.drop_first();
        assert(whole[0] == byte);
        assert(whole.drop_first() =~= rest + beyond);
        if input.len() == 1 {
            assert(input.drop_last() =~= Seq::<u8>::empty());
            assert(rest =~= Seq::<u8>::empty());
        } else {
            assert(input.drop_last()[0] == byte);
            assert(input.drop_last().drop_first() =~= rest.drop_last());
        }
        match pending {
            Some(low) if byte <= 1 => {
                law_bytes_without_room_are_dropped(None, rest, beyond, (room - 1) as nat);
            },
            _ => {
                law_bytes_without_room_are_dropped(Some(byte), rest, beyond, room);
            },
        }
    }
}

/// While there is room for the next word, decoding gives what the bytes make.
pub proof fn law_room_is_enough(pending: Option<u8>, input: Seq<u8>, room: nat)
    requires
        input.len() == 0 || streamed(pending, input.drop_last()).1.len() < room,
    ensures
        decoded(pending, input, room) == streamed(pending, input),
    decreases input.len(),
{
    if input.len() > 0 {
        let byte = input[0];
        let rest = input.drop_first();
        if input.len() == 1 {
            assert(rest =~= Seq::<u8>::empty());
        } else {
            assert(input.drop_last()[0] == byte);
            assert(input.drop_last().drop_first() =~= rest.drop_last());
        }
        match pending {
            Some(low) if byte <= 1 => law_room_is_enough(None, rest, (room - 1) as nat),
            _ => law_room_is_enough(Some(byte), rest, room),
        }
    }
}

} // verus!
