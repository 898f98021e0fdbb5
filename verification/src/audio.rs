use vstd::prelude::*;
use vstd::utf8::{decode_utf8, valid_utf8};
use crate::fmt::{dec, decimal};

verus! {

/// Errors of assembling an episode's audio.
pub enum AudioError {
    /// The resource of a speaker URN names no known speech generator.
    UnsupportedGenerator { resource: String },
    /// ffmpeg failed; its standard error output.
    ConcatFailed { stderr: String },
    /// ffmpeg failed and its standard error output was not UTF-8.
    StderrNotUtf8,
}

/// The speech generators the worker can drive.
#[derive(PartialEq, Eq, Structural)]
pub enum GeneratorKind {
    VoiceVox,
}

/// `"voicevox"`
pub open spec fn voicevox_resource() -> Seq<char> {
    seq!['v', 'o', 'i', 'c', 'e', 'v', 'o', 'x']
}

/// The generator named by the resource part of a speaker URN: only
/// `voicevox` is known; anything else is refused with the name.
pub fn resolve_generator(resource: &str) -> (r: Result<GeneratorKind, AudioError>)
    ensures
        match r {
            Ok(k) => resource@ == voicevox_resource() && k == GeneratorKind::VoiceVox,
            Err(e) => resource@ != voicevox_resource() && (e matches AudioError::UnsupportedGenerator {
                resource: name,
            } && name@ == resource@),
        },
{
    let v = crate::text::chars_of(resource);
    if v.len() == 8 && v[0] == 'v' && v[1] == 'o' && v[2] == 'i' && v[3] == 'c' && v[4] == 'e' && v[5] == 'v'
        && v[6] == 'o' && v[7] == 'x' {
        assert(v@ =~= voicevox_resource());
        Ok(GeneratorKind::VoiceVox)
    } else {
        proof {
            if resource@ == voicevox_resource() {
                assert(v@[0] == 'v');
            }
        }
        Err(AudioError::UnsupportedGenerator { resource: resource.to_owned() })
    }
}

/// The file name the audio of sentence `index` is written to: `<index>.wav`.
pub open spec fn wav_name(index: nat) -> Seq<char> {
    dec(index) + seq!['.', 'w', 'a', 'v']
}

/// `format!("{}.wav", index)`
pub fn wav_file_name(index: u64) -> (name: String)
    ensures
        name@ == wav_name(index as nat),
{
    let mut name = decimal(index);
    name.append(".wav");
    proof {
        reveal_strlit(".wav");
    }
    name
}

/// One line of ffmpeg's concat list: `file '<name>'`.
pub open spec fn concat_line(name: Seq<char>) -> Seq<char> {
    seq!['f', 'i', 'l', 'e', ' ', '\''] + name + seq!['\'']
}

/// The concat list: one line per file, joined by line feeds.
pub open spec fn concat_list_text(names: Seq<Seq<char>>) -> Seq<char>
    decreases names.len(),
{
    if names.len() == 0 {
        Seq::empty()
    } else if names.len() == 1 {
        concat_line(names[0])
    } else {
        concat_list_text(names.drop_last()) + seq!['\n'] + concat_line(names.last())
    }
}

/// The list ffmpeg's concat demuxer reads to join the sentence files in order.
pub fn concat_list(names: &Vec<String>) -> (text: String)
    ensures
        text@ == concat_list_text(names@.map_values(|n: String| n@)),
{
    let ghost ns = names@.map_values(|n: String| n@);
    let mut text = String::new();
    let mut i: usize = 0;
    proof {
        reveal_strlit("file '");
        reveal_strlit("'");
        reveal_strlit("\n");
        assert("file '"@ =~= seq!['f', 'i', 'l', 'e', ' ', '\'']);
        assert("'"@ =~= seq!['\'']);
        assert("\n"@ =~= seq!['\n']);
    }
    while i < names.len()
        invariant
            i <= names.len(),
            ns == names@.map_values(|n: String| n@),
            text@ == concat_list_text(ns.take(i as int)),
            "file '"@ == seq!['f', 'i', 'l', 'e', ' ', '\''],
            "'"@ == seq!['\''],
            "\n"@ == seq!['\n'],
        decreases names.len() - i,
    {
        let ghost before = text@;
        if i > 0 {
            text.append("\n");
        }
        text.append("file '");
        text.append(names[i].as_str());
        text.append("'");
        proof {
            let t = ns.take(i + 1);
            assert(t.drop_last() =~= ns.take(i as int));
            assert(t.last() == names@[i as int]@);
            if i == 0 {
                assert(t.len() == 1);
                assert(before.len() == 0);
                assert(text@ =~= concat_line(t[0]));
            } else {
                assert(text@ =~= before + seq!['\n'] + concat_line(t.last()));
            }
        }
        i += 1;
    }
    proof {
        assert(ns.take(i as int) =~= ns);
    }
    text
}

/// A string of the given literal.
fn owned(s: &str) -> (r: String)
    ensures
        r@ == s@,
{
    s.to_owned()
}

/// The arguments ffmpeg is run with to join the files listed in `inputs_path`
/// into a 44.1 kHz stereo 192 kbit/s MP3 at `output_path`.
pub fn ffmpeg_concat_args(inputs_path: &str, output_path: &str) -> (args: Vec<String>)
    ensures
        args@.len() == 13,
        args@[0]@ == "-y"@,
        args@[1]@ == "-f"@,
        args@[2]@ == "concat"@,
        args@[3]@ == "-i"@,
        args@[4]@ == inputs_path@,
        args@[5]@ == "-vn"@,
        args@[6]@ == "-ar"@,
        args@[7]@ == "44100"@,
        args@[8]@ == "-ac"@,
        args@[9]@ == "2"@,
        args@[10]@ == "-b:a"@,
        args@[11]@ == "192k"@,
        args@[12]@ == output_path@,
{
    let mut args: Vec<String> = Vec::new();
    args.push(owned("-y"));
    args.push(owned("-f"));
    args.push(owned("concat"));
    args.push(owned("-i"));
    args.push(owned(inputs_path));
    args.push(owned("-vn"));
    args.push(owned("-ar"));
    args.push(owned("44100"));
    args.push(owned("-ac"));
    args.push(owned("2"));
    args.push(owned("-b:a"));
    args.push(owned("192k"));
    args.push(owned(output_path));
    args
}

/// `String::from_utf8`, with the error dropped: the text the bytes encode in
/// UTF-8, or nothing when they are not valid UTF-8, as std documents it.
#[verifier::external_body]
pub(crate) fn utf8_to_string(bytes: Vec<u8>) -> (r: Option<String>)
    ensures
        r is Some == valid_utf8(bytes@),
        r matches Some(s) ==> s@ == decode_utf8(bytes@),
{
    String::from_utf8(bytes).ok()
}

/// What a finished ffmpeg run means: success, or a failure reported with its
/// standard error output (itself a failure when that is not UTF-8).
pub fn concat_outcome(success: bool, stderr: Vec<u8>) -> (r: Result<(), AudioError>)
    ensures
        success ==> r is Ok,
        !success && valid_utf8(stderr@) ==> (r matches Err(AudioError::ConcatFailed { stderr: msg })
            && msg@ == decode_utf8(stderr@)),
        !success && !valid_utf8(stderr@) ==> r matches Err(AudioError::StderrNotUtf8),
{
    if success {
        Ok(())
    } else {
        match utf8_to_string(stderr) {
            Some(msg) => Err(AudioError::ConcatFailed { stderr: msg }),
            None => Err(AudioError::StderrNotUtf8),
        }
    }
}

} // verus!
