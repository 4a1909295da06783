//! What holds of every command line built from a well-formed profile.

use vstd::prelude::*;
use vstd::string::*;
use crate::container::{
    cpus_flag, drop_capabilities_flag, memory_flag, network_flag, no_new_privileges_flag,
    pids_flag, remove_flag, run_verb, runtime_binary, space, swap_flag, local_runtime,
    remote_runtime, ContainerSettings,
};
use crate::decimal::{decimal_text, is_digit, lemma_decimal_text};
use crate::transport::{bootstrap, encoded, payload_command, lemma_encoded_inert};
use crate::words::{
    is_inert, is_plain_line, is_plain_word, lemma_split_single, lemma_split_word, spaceless, split,
};

verus! {

/// The start of each flag that the runtime is given, in order.
pub open spec fn flag_names() -> Seq<Seq<char>> {
    seq![
        drop_capabilities_flag(),
        no_new_privileges_flag(),
        cpus_flag(),
        memory_flag(),
        network_flag(),
        pids_flag(),
    ]
}

/// `word` is one of the runtime flags that this library knows, or a swap
/// ceiling.
pub open spec fn is_flag(word: Seq<char>) -> bool {
    swap_flag().is_prefix_of(word) || exists|j: int|
        0 <= j < 6 && (#[trigger] flag_names()[j]).is_prefix_of(word)
}

/// The words of the complete line that runs `payload` in the sandbox.
pub open spec fn sandbox_words(settings: ContainerSettings, payload: Seq<u8>) -> Seq<Seq<char>> {
    seq![runtime_binary(settings.running_in_container), run_verb(), remove_flag()]
        + settings.flag_words() + seq![settings.image@, bootstrap(), encoded(payload)]
}

proof fn lemma_differs_at(name: Seq<char>, word: Seq<char>, k: int)
    requires
        0 <= k < name.len(),
        k < word.len() ==> name[k] != word[k],
    ensures
        !name.is_prefix_of(word),
{
    if name.is_prefix_of(word) {
        assert(name[k] == word.subrange(0, name.len() as int)[k]);
    }
}

proof fn lemma_names_revealed()
    ensures
        drop_capabilities_flag().len() == 14,
        no_new_privileges_flag().len() == 32,
        cpus_flag().len() == 7,
        memory_flag().len() == 9,
        network_flag().len() == 10,
        pids_flag().len() == 13,
        swap_flag().len() == 13,
        forall|j: int|
            0 <= j < 6 ==> (#[trigger] flag_names()[j])[0] == '-' && flag_names()[j][1] == '-'
                && flag_names()[j].len() >= 7,
        drop_capabilities_flag()[2] == 'c',
        drop_capabilities_flag()[3] == 'a',
        no_new_privileges_flag()[2] == 's',
        cpus_flag()[2] == 'c',
        cpus_flag()[3] == 'p',
        memory_flag()[2] == 'm',
        memory_flag()[8] == '=',
        network_flag()[2] == 'n',
        pids_flag()[2] == 'p',
        swap_flag()[0] == '-',
        swap_flag()[2] == 'm',
        swap_flag()[8] == '-',
{
    reveal_strlit("--cap-drop=ALL");
    reveal_strlit("--security-opt=no-new-privileges");
    reveal_strlit("--cpus=");
    reveal_strlit("--memory=");
    reveal_strlit("--network=");
    reveal_strlit("--pids-limit=");
    reveal_strlit("--memory-swap");
}

/// A word that does not begin like an option, or begins `--r`, is none of
/// the flags.
pub proof fn lemma_not_a_flag(word: Seq<char>)
    requires
        word.len() == 0 || word[0] != '-' || (word.len() > 2 && word[2] == 'r'),
    ensures
        !is_flag(word),
{
    lemma_names_revealed();
    let k: int = if word.len() > 0 && word[0] == '-' {
        2
    } else {
        0
    };
    lemma_differs_at(swap_flag(), word, k);
    assert forall|j: int| 0 <= j < 6 implies !(#[trigger] flag_names()[j]).is_prefix_of(word) by {
        lemma_differs_at(flag_names()[j], word, k);
    }
}

/// A flag's own name is the only one that its word begins with.
pub proof fn lemma_flag_word(i: int, value: Seq<char>)
    requires
        0 <= i < 6,
    ensures
        forall|j: int|
            0 <= j < 6 ==> ((#[trigger] flag_names()[j]).is_prefix_of(flag_names()[i] + value) <==> j
                == i),
        !swap_flag().is_prefix_of(flag_names()[i] + value),
{
    lemma_names_revealed();
    let word = flag_names()[i] + value;
    assert(word.subrange(0, flag_names()[i].len() as int) =~= flag_names()[i]);
    assert(forall|k: int| 0 <= k < flag_names()[i].len() ==> word[k] == flag_names()[i][k]);
    lemma_differs_at(swap_flag(), word, if i == 3 { 8int } else { 2int });
    assert forall|j: int| 0 <= j < 6 && j != i implies !(#[trigger] flag_names()[j]).is_prefix_of(
        word,
    ) by {
        let k: int = if (i == 0 && j == 2) || (i == 2 && j == 0) {
            3
        } else {
            2
        };
        lemma_differs_at(flag_names()[j], word, k);
    }
}

/// Every character of `text` is inert; `text` may be empty.
pub open spec fn all_inert(text: Seq<char>) -> bool {
    forall|i: int| 0 <= i < text.len() ==> is_inert(#[trigger] text[i])
}

proof fn lemma_literals_plain()
    ensures
        is_plain_word(local_runtime()),
        is_plain_word(remote_runtime()),
        is_plain_word(run_verb()),
        is_plain_word(remove_flag()),
        is_plain_word(bootstrap()),
        local_runtime()[0] == 'p',
        remote_runtime()[0] == 'p',
        run_verb()[0] == 'r',
        remove_flag()[2] == 'r',
        remove_flag().len() == 4,
        bootstrap()[0] == 't',
        forall|j: int| 0 <= j < 6 ==> is_plain_word(#[trigger] flag_names()[j]),
{
    reveal_strlit("podman");
    reveal_strlit("podman-remote");
    reveal_strlit("run");
    reveal_strlit("--rm");
    reveal_strlit("trampoline");
    reveal_strlit("--cap-drop=ALL");
    reveal_strlit("--security-opt=no-new-privileges");
    reveal_strlit("--cpus=");
    reveal_strlit("--memory=");
    reveal_strlit("--network=");
    reveal_strlit("--pids-limit=");
    assert(is_plain_word(drop_capabilities_flag()));
    assert(is_plain_word(no_new_privileges_flag()));
    assert(is_plain_word(cpus_flag()));
    assert(is_plain_word(memory_flag()));
    assert(is_plain_word(network_flag()));
    assert(is_plain_word(pids_flag()));
}

proof fn lemma_plain_concat(name: Seq<char>, value: Seq<char>)
    requires
        is_plain_word(name),
        all_inert(value),
    ensures
        is_plain_word(name + value),
{
    let word = name + value;
    assert forall|i: int| 0 <= i < word.len() implies is_inert(#[trigger] word[i]) by {
        if i < name.len() {
            assert(word[i] == name[i]);
        } else {
            assert(word[i] == value[i - name.len()]);
        }
    }
}

proof fn lemma_extend(line: Seq<char>, word: Seq<char>)
    requires
        is_plain_line(line),
        all_inert(word),
    ensures
        is_plain_line(line + space() + word),
        split(line + space() + word) == split(line).push(word),
{
    let longer = line + space() + word;
    assert forall|i: int| 0 <= i < longer.len() implies (is_inert(#[trigger] longer[i])
        || longer[i] == ' ') by {
        if i < line.len() {
            assert(longer[i] == line[i]);
        } else if i > line.len() {
            assert(longer[i] == word[i - line.len() - 1]);
        }
    }
    assert(spaceless(word)) by {
        assert forall|i: int| 0 <= i < word.len() implies #[trigger] word[i] != ' ' by {
            assert(is_inert(word[i]));
        }
    }
    lemma_split_word(line, word);
}

proof fn lemma_regroup(line: Seq<char>, front: Seq<char>, word: Seq<char>)
    ensures
        line + (front + space() + word) == (line + front) + space() + word,
{
    assert(line + (front + space() + word) =~= (line + front) + space() + word);
}

/// The flag words of a well-formed profile are plain words.
pub proof fn lemma_flag_words_plain(settings: ContainerSettings)
    requires
        settings.wf(),
    ensures
        settings.flag_words().len() == 6,
        forall|i: int| 0 <= i < 6 ==> is_plain_word(#[trigger] settings.flag_words()[i]),
{
    lemma_literals_plain();
    lemma_decimal_text(settings.pid_limit as nat);
    let pids = decimal_text(settings.pid_limit as nat);
    assert(all_inert(pids)) by {
        assert forall|i: int| 0 <= i < pids.len() implies is_inert(#[trigger] pids[i]) by {
            assert(is_digit(pids[i]));
        }
    }
    assert(is_plain_word(flag_names()[0]));
    assert(is_plain_word(flag_names()[1]));
    assert(is_plain_word(flag_names()[2]));
    assert(is_plain_word(flag_names()[3]));
    assert(is_plain_word(flag_names()[4]));
    assert(is_plain_word(flag_names()[5]));
    lemma_plain_concat(cpus_flag(), settings.cpu@);
    lemma_plain_concat(memory_flag(), settings.memory@);
    lemma_plain_concat(network_flag(), settings.network@);
    lemma_plain_concat(pids_flag(), pids);
}

/// The flag string of a well-formed profile splits into exactly its six
/// flags, and a shell would leave each of them as it is.
pub proof fn lemma_flags_split(settings: ContainerSettings)
    requires
        settings.wf(),
    ensures
        split(settings.runtime_flags()) == settings.flag_words(),
        is_plain_line(settings.runtime_flags()),
{
    lemma_flag_words_plain(settings);
    let w = settings.flag_words();
    assert(is_plain_word(w[0]) && is_plain_word(w[1]) && is_plain_word(w[2]) && is_plain_word(w[3])
        && is_plain_word(w[4]) && is_plain_word(w[5]));
    lemma_split_single(w[0]);
    let l0 = w[0];
    lemma_extend(l0, w[1]);
    let l1 = l0 + space() + w[1];
    lemma_extend(l1, w[2]);
    let l2 = l1 + space() + w[2];
    lemma_extend(l2, w[3]);
    let l3 = l2 + space() + w[3];
    lemma_extend(l3, w[4]);
    let l4 = l3 + space() + w[4];
    lemma_extend(l4, w[5]);
    let l5 = l4 + space() + w[5];
    assert(l5 == settings.runtime_flags());
    assert(split(l5) =~= w);
}

/// Each flag stands exactly once among the flag words, whatever the
/// profile holds, and no word sets a swap ceiling.
pub proof fn lemma_each_flag_once(settings: ContainerSettings)
    ensures
        forall|i: int, j: int|
            0 <= i < 6 && 0 <= j < 6 ==> ((#[trigger] flag_names()[j]).is_prefix_of(
                #[trigger] settings.flag_words()[i],
            ) <==> i == j),
        forall|i: int|
            0 <= i < 6 ==> !swap_flag().is_prefix_of(#[trigger] settings.flag_words()[i]),
{
    let empty = Seq::<char>::empty();
    let pids = decimal_text(settings.pid_limit as nat);
    lemma_flag_word(0, empty);
    lemma_flag_word(1, empty);
    lemma_flag_word(2, settings.cpu@);
    lemma_flag_word(3, settings.memory@);
    lemma_flag_word(4, settings.network@);
    lemma_flag_word(5, pids);
    assert(flag_names()[0] + empty =~= settings.flag_words()[0]);
    assert(flag_names()[1] + empty =~= settings.flag_words()[1]);
    assert(flag_names()[2] + settings.cpu@ == settings.flag_words()[2]);
    assert(flag_names()[3] + settings.memory@ == settings.flag_words()[3]);
    assert(flag_names()[4] + settings.network@ == settings.flag_words()[4]);
    assert(flag_names()[5] + pids == settings.flag_words()[5]);
}

/// The complete line for any payload, built from a well-formed profile:
/// it splits into the runtime binary, `run --rm`, the six flags, the image,
/// the bootstrap program and the encoded payload, and into nothing else;
/// a shell finds nothing in it to expand; each flag stands exactly once,
/// in its place, and nothing sets a swap ceiling.
pub proof fn lemma_sandbox_line(settings: ContainerSettings, payload: Seq<u8>)
    requires
        settings.wf(),
    ensures
        split(settings.run_line(payload_command(payload))) == sandbox_words(settings, payload),
        is_plain_line(settings.run_line(payload_command(payload))),
        sandbox_words(settings, payload).len() == 12,
        forall|i: int, j: int|
            0 <= i < 12 && 0 <= j < 6 ==> ((#[trigger] flag_names()[j]).is_prefix_of(
                #[trigger] sandbox_words(settings, payload)[i],
            ) <==> i == 3 + j),
        forall|i: int|
            0 <= i < 12 ==> !swap_flag().is_prefix_of(
                #[trigger] sandbox_words(settings, payload)[i],
            ),
{
    lemma_literals_plain();
    lemma_flags_split(settings);
    lemma_flag_words_plain(settings);
    lemma_encoded_inert(payload);
    let f = settings.flag_words();
    let binary = runtime_binary(settings.running_in_container);
    let text = encoded(payload);
    assert(is_plain_word(f[0]) && is_plain_word(f[1]) && is_plain_word(f[2]) && is_plain_word(f[3])
        && is_plain_word(f[4]) && is_plain_word(f[5]));
    assert(all_inert(text));
    lemma_split_single(binary);
    let l0 = binary;
    lemma_extend(l0, run_verb());
    let l1 = l0 + space() + run_verb();
    lemma_extend(l1, remove_flag());
    let l2 = l1 + space() + remove_flag();
    lemma_extend(l2, f[0]);
    let l3 = l2 + space() + f[0];
    lemma_extend(l3, f[1]);
    let l4 = l3 + space() + f[1];
    lemma_extend(l4, f[2]);
    let l5 = l4 + space() + f[2];
    lemma_extend(l5, f[3]);
    let l6 = l5 + space() + f[3];
    lemma_extend(l6, f[4]);
    let l7 = l6 + space() + f[4];
    lemma_extend(l7, f[5]);
    let l8 = l7 + space() + f[5];
    lemma_extend(l8, settings.image@);
    let l9 = l8 + space() + settings.image@;
    lemma_extend(l9, bootstrap());
    let l10 = l9 + space() + bootstrap();
    lemma_extend(l10, text);
    let l11 = l10 + space() + text;
    let start = l2 + space();
    let g1 = f[0] + space() + f[1];
    let g2 = g1 + space() + f[2];
    let g3 = g2 + space() + f[3];
    let g4 = g3 + space() + f[4];
    assert(g4 + space() + f[5] == settings.runtime_flags());
    lemma_regroup(start, g4, f[5]);
    lemma_regroup(start, g3, f[4]);
    lemma_regroup(start, g2, f[3]);
    lemma_regroup(start, g1, f[2]);
    lemma_regroup(start, f[0], f[1]);
    assert(start + settings.runtime_flags() == l8);
    lemma_regroup(l9 + space(), bootstrap(), text);
    assert(settings.run_line(payload_command(payload)) == l11);
    let words = sandbox_words(settings, payload);
    assert(split(l11) =~= words);
    lemma_each_flag_once(settings);
    lemma_not_a_flag(words[0]);
    lemma_not_a_flag(words[1]);
    lemma_not_a_flag(words[2]);
    lemma_not_a_flag(words[9]);
    lemma_not_a_flag(words[10]);
    lemma_not_a_flag(words[11]);
    assert forall|i: int, j: int| 0 <= i < 12 && 0 <= j < 6 implies ((#[trigger] flag_names()[j])
        .is_prefix_of(#[trigger] words[i]) <==> i == 3 + j) by {
        if 3 <= i < 9 {
            assert(words[i] == f[i - 3]);
        }
    }
    assert forall|i: int| 0 <= i < 12 implies !swap_flag().is_prefix_of(#[trigger] words[i]) by {
        if 3 <= i < 9 {
            assert(words[i] == f[i - 3]);
        }
    }
}

} // verus!
