//! Properties that hold across the operations of the library.

use vstd::prelude::*;
use vstd::utf8::{decode_utf8, encode_utf8, is_ascii_chars, valid_utf8};
use crate::containers::{binding_text, HostBinding, inspect_report, or_empty, ports_text, shown_name, table_header, table_line, table_report, ContainerDetails};
use crate::deploy::{spec_container_name, spec_container_port};
use crate::image::spec_split_image_ref;
use crate::models::ContainerInfo;
use crate::nixpacks::{
    build_command, build_env, digit_run, env_args, env_flag, has_entry_with_prefix, major_version,
    before_first_dot, fallback_node_version, first_digit, lemma_digit_run, lemma_first_digit, node_version_for, node_version_key, port_entry, with_port_env, BuildConfig,
};
use crate::runner::{managed_filter, short_id, short_id_cut, short_id_fits, short_id_len, LABEL_MANAGED_BY, LABEL_MANAGED_BY_VALUE};
use crate::text::{
    decimal, decimal_value, digit_char, first_index, is_ascii_digit, is_white_space,
    lemma_first_index, lemma_leading_space, lemma_trailing_space, leading_space, min_nat,
    lemma_strip_leading, pad_right, replace_char, strip_leading, trailing_space, trim, views,
};

verus! {

/// After `PORT` is ensured, some entry sets `PORT`; the entries given stay first
/// and in order; and an entry that already set `PORT` is left as it was.
pub proof fn law_port_env_is_set(env: Seq<Seq<char>>, port: u16)
    ensures
        has_entry_with_prefix(with_port_env(env, port), "PORT="@),
        env.is_prefix_of(with_port_env(env, port)),
        has_entry_with_prefix(env, "PORT="@) ==> with_port_env(env, port) == env,
        !has_entry_with_prefix(env, "PORT="@) ==> with_port_env(env, port) == env.push(port_entry(port)),
{
    if !has_entry_with_prefix(env, "PORT="@) {
        let e = env.push(port_entry(port));
        assert("PORT="@.is_prefix_of(e[env.len() as int])) by {
            reveal_strlit("PORT=");
            assert(port_entry(port).subrange(0, 5) =~= "PORT="@);
        }
        assert(env =~= e.subrange(0, env.len() as int));
    } else {
        assert(env =~= env.subrange(0, env.len() as int));
    }
}

/// Ensuring `PORT` twice, with any ports, gives what ensuring it once gives.
pub proof fn law_port_env_idempotent(env: Seq<Seq<char>>, first: u16, second: u16)
    ensures
        with_port_env(with_port_env(env, first), second) == with_port_env(env, first),
{
    law_port_env_is_set(env, first);
}

/// A Node.js version that the user pinned is never overridden nor doubled by a
/// detected one.
pub proof fn law_pinned_node_version_kept(env: Seq<Seq<char>>, detected: Option<Seq<char>>)
    requires
        has_entry_with_prefix(env, node_version_key()),
    ensures
        build_env(env, detected) == env,
{
}

proof fn lemma_env_args_at(env: Seq<Seq<char>>, i: int)
    requires
        0 <= i < env.len(),
    ensures
        env_args(env).len() == 2 * env.len(),
        env_args(env)[2 * i] == env_flag(),
        env_args(env)[2 * i + 1] == env[i],
    decreases env.len(),
{
    let prev = env_args(env.drop_last());
    if i < env.len() - 1 {
        lemma_env_args_at(env.drop_last(), i);
        assert(env.drop_last()[i] == env[i]);
    } else {
        if env.len() > 1 {
            lemma_env_args_at(env.drop_last(), 0);
        }
        assert(prev.len() == 2 * i);
    }
}

/// `--env` precedes each environment entry, in order, and nothing else is added.
pub proof fn law_env_args_pairs(env: Seq<Seq<char>>)
    ensures
        env_args(env).len() == 2 * env.len(),
        forall|i: int| 0 <= i < env.len() ==> #[trigger] env_args(env)[2 * i] == env_flag(),
        forall|i: int| 0 <= i < env.len() ==> env_args(env)[2 * i + 1] == #[trigger] env[i],
{
    if env.len() > 0 {
        lemma_env_args_at(env, 0);
    }
    assert forall|i: int| 0 <= i < env.len() implies #[trigger] env_args(env)[2 * i] == env_flag() by {
        lemma_env_args_at(env, i);
    }
    assert forall|i: int| 0 <= i < env.len() implies env_args(env)[2 * i + 1] == #[trigger] env[i] by {
        lemma_env_args_at(env, i);
    }
}

/// A build command starts with `build <source> --name <image>`, then passes the
/// build environment with `--env`.
pub proof fn law_build_command_layout(cfg: BuildConfig, detected: Option<Seq<char>>)
    ensures
        build_command(cfg, detected).len() >= 4 + 2 * build_env(views(cfg.env@), detected).len(),
        build_command(cfg, detected)[0] == "build"@,
        build_command(cfg, detected)[1] == cfg.source@,
        build_command(cfg, detected)[2] == "--name"@,
        build_command(cfg, detected)[3] == cfg.image_name@,
        forall|i: int|
            0 <= i < build_env(views(cfg.env@), detected).len() ==> build_command(cfg, detected)[4 + 2 * i]
                == env_flag() && build_command(cfg, detected)[5 + 2 * i] == #[trigger] build_env(
                views(cfg.env@),
                detected,
            )[i],
{
        law_env_args_pairs(build_env(views(cfg.env@), detected));
}

proof fn lemma_decimal(n: nat)
    ensures
        decimal(n).len() > 0,
        forall|i: int| 0 <= i < decimal(n).len() ==> is_ascii_digit(#[trigger] decimal(n)[i]),
        decimal_value(decimal(n)) == n,
        decimal(n)[0] == '0' ==> n == 0,
    decreases n,
{
    if n >= 10 {
        lemma_decimal(n / 10);
        let d = decimal(n);
        assert(d.drop_last() =~= decimal(n / 10));
        assert(d[0] == decimal(n / 10)[0]);
        assert((digit_char(n % 10) as int - 48) == n % 10);
        assert(d.last() == digit_char(n % 10));
        assert(decimal_value(d) == decimal_value(d.drop_last()) * 10 + ((d.last() as int - 48) as nat));
        assert(decimal_value(d.drop_last()) == n / 10);
        assert(n == (n / 10) * 10 + n % 10);
    } else {
        let d = decimal(n);
        assert(d.drop_last() =~= Seq::<char>::empty());
        assert(decimal_value(d.drop_last()) == 0);
        assert((digit_char(n) as int - 48) == n);
    }
}

/// The decimal notation consists of digits, has no superfluous leading zero, and
/// denotes the number written: two numbers never share a notation.
pub proof fn law_decimal_round_trip(n: nat, m: nat)
    ensures
        decimal(n).len() > 0,
        forall|i: int| 0 <= i < decimal(n).len() ==> is_ascii_digit(#[trigger] decimal(n)[i]),
        decimal(n)[0] == '0' ==> n == 0,
        decimal_value(decimal(n)) == n,
        decimal(n) == decimal(m) ==> n == m,
{
    lemma_decimal(n);
    lemma_decimal(m);
}

/// A container name starts with `railway-`, holds no `:` and is eight characters
/// longer than the image name.
pub proof fn law_container_name(image_name: Seq<char>)
    ensures
        "railway-"@.is_prefix_of(spec_container_name(image_name)),
        !spec_container_name(image_name).contains(':'),
        spec_container_name(image_name).len() == image_name.len() + 8,
        forall|i: int|
            0 <= i < image_name.len() ==> #[trigger] spec_container_name(image_name)[8 + i] == if image_name[i]
                == ':' {
                '-'
            } else {
                image_name[i]
            },
{
    let s = spec_container_name(image_name);
    reveal_strlit("railway-");
    assert(s.subrange(0, 8) =~= "railway-"@);
    if s.contains(':') {
        let k = choose|k: int| 0 <= k < s.len() && s[k] == ':';
        if k >= 8 {
            assert(s[k] == replace_char(image_name, ':', '-')[k - 8]);
        }
    }
}

/// The published container port is the application port followed by `/tcp`.
pub proof fn law_container_port(port: u16)
    ensures
        spec_container_port(port).subrange(0, decimal(port as nat).len() as int) == decimal(port as nat),
        port_entry(port).subrange(5, port_entry(port).len() as int) == decimal(port as nat),
{
    reveal_strlit("PORT=");
    assert(spec_container_port(port).subrange(0, decimal(port as nat).len() as int) =~= decimal(port as nat));
    assert(port_entry(port).subrange(5, port_entry(port).len() as int) =~= decimal(port as nat));
}

/// An image reference with a `:` is its repository, `:` and tag, and the repository
/// holds no `:`; one without gets the tag `latest`.
pub proof fn law_split_image_ref(image: Seq<char>)
    ensures
        image.contains(':') ==> spec_split_image_ref(image).0 + ":"@ + spec_split_image_ref(image).1 == image,
        image.contains(':') ==> !spec_split_image_ref(image).0.contains(':'),
        !image.contains(':') ==> spec_split_image_ref(image) == (image, "latest"@),
{
    lemma_first_index(image, ':');
    reveal_strlit(":");
    let i = first_index(image, ':');
    if image.contains(':') {
        let (repo, tag) = spec_split_image_ref(image);
        assert(repo + ":"@ + tag =~= image);
        if repo.contains(':') {
            let k = choose|k: int| 0 <= k < repo.len() && repo[k] == ':';
            assert(image[k] == ':');
        }
    }
}

proof fn lemma_strip_leading_head(s: Seq<char>, c: char)
    ensures
        strip_leading(s, c).len() > 0 ==> strip_leading(s, c)[0] != c,
        strip_leading(strip_leading(s, c), c) == strip_leading(s, c),
        strip_leading(s, c).is_suffix_of(s),
    decreases s.len(),
{
    if s.len() > 0 && s[0] == c {
        lemma_strip_leading_head(s.drop_first(), c);
        let t = strip_leading(s.drop_first(), c);
        assert(t =~= s.subrange(s.len() - t.len(), s.len() as int)) by {
            assert(t =~= s.drop_first().subrange(s.drop_first().len() - t.len(), s.drop_first().len() as int));
        }
    } else {
        assert(s =~= s.subrange(0, s.len() as int));
    }
}

/// A shown name never starts with `/`, is the end of the name it came from, and
/// showing it again changes nothing.
pub proof fn law_shown_name(name: Seq<char>)
    ensures
        shown_name(name).len() > 0 ==> shown_name(name)[0] != '/',
        shown_name(name).is_suffix_of(name),
        shown_name(shown_name(name)) == shown_name(name),
        forall|k: int| 0 <= k < name.len() - shown_name(name).len() ==> #[trigger] name[k] == '/',
{
    lemma_strip_leading_head(name, '/');
    lemma_strip_leading(name, '/');
}

/// A shown id that can be cut begins the id it came from, and its encoding is the
/// first twelve bytes of the id's, or all of them when there are fewer; an id of at
/// most twelve bytes is shown whole, and an ASCII id by its first twelve characters.
pub proof fn law_short_id(id: Seq<char>)
    requires
        short_id_fits(id),
    ensures
        short_id(id).is_prefix_of(id),
        encode_utf8(short_id(id)) == encode_utf8(id).subrange(0, short_id_cut(id)),
        encode_utf8(id).len() <= short_id_len() ==> short_id(id) == id,
        is_ascii_chars(id) ==> short_id(id) == id.subrange(0, min_nat(short_id_len(), id.len()) as int),
{
    broadcast use vstd::utf8::group_utf8_lib;

    let b = encode_utf8(id);
    let cut = short_id_cut(id);
    let head = b.subrange(0, cut);
    let tail = b.subrange(cut, b.len() as int);
    let short = short_id(id);
    assert(valid_utf8(b));
    assert(valid_utf8(head));
    assert(valid_utf8(tail));
    assert(decode_utf8(b) == id);
    assert(id =~= short + decode_utf8(tail));
    assert(short =~= id.subrange(0, short.len() as int));
    assert(encode_utf8(short) == head);
    if b.len() <= 12 {
        assert(head =~= b);
    }
    if is_ascii_chars(id) {
        assert(is_ascii_chars(short)) by {
            assert forall|k: int| 0 <= k < short.len() implies '\0' <= #[trigger] short[k] <= '\u{7f}' by {
                assert(short[k] == id[k]);
            }
        }
        assert(encode_utf8(short).len() == short.len());
        assert(b.len() == id.len());
    }
}

/// A padded column holds the text and is at least `width` characters wide, exactly
/// `width` when the text is not wider; what is added is spaces.
pub proof fn law_pad_right(s: Seq<char>, width: nat)
    ensures
        s.is_prefix_of(pad_right(s, width)),
        pad_right(s, width).len() == if s.len() < width { width } else { s.len() },
        forall|i: int| s.len() <= i < pad_right(s, width).len() ==> #[trigger] pad_right(s, width)[i] == ' ',
{
    assert(s =~= pad_right(s, width).subrange(0, s.len() as int));
}

/// The Node.js version pinned for a Node.js project is never empty and consists of
/// ASCII digits only; it is the first run of digits of `engines.node` when that
/// string has one, and `22` otherwise.
pub proof fn law_node_version_digits(field: Option<Seq<char>>)
    ensures
        node_version_for(field).len() > 0,
        forall|i: int|
            0 <= i < node_version_for(field).len() ==> is_ascii_digit(#[trigger] node_version_for(field)[i]),
{
    reveal_strlit("22");
    if let Some(e) = field {
        let h = before_first_dot(e);
        let rest = h.subrange(first_digit(h) as int, h.len() as int);
        lemma_digit_run(rest);
        let m = major_version(e);
        assert forall|i: int| 0 <= i < m.len() implies is_ascii_digit(#[trigger] m[i]) by {
            assert(m[i] == rest[i]);
        }
    }
}

/// The major version is the whole first run of digits of the part before the first
/// `.`: nothing but non-digits stands before it there, and it is followed by a
/// non-digit or by the end of that part.
pub proof fn law_major_version_is_first_digit_run(s: Seq<char>)
    ensures
        ({
            let h = before_first_dot(s);
            let m = major_version(s);
            &&& h.is_prefix_of(s)
            &&& !h.contains('.')
            &&& m == h.subrange(first_digit(h) as int, (first_digit(h) + m.len()) as int)
            &&& forall|j: int| 0 <= j < first_digit(h) ==> !is_ascii_digit(#[trigger] h[j])
            &&& first_digit(h) + m.len() < h.len() ==> !is_ascii_digit(h[(first_digit(h) + m.len()) as int])
        }),
{
    lemma_first_index(s, '.');
    let h = before_first_dot(s);
    lemma_first_digit(h);
    let rest = h.subrange(first_digit(h) as int, h.len() as int);
    lemma_digit_run(rest);
    let m = major_version(s);
    assert(h =~= s.subrange(0, h.len() as int));
    if h.contains('.') {
        let k = choose|k: int| 0 <= k < h.len() && h[k] == '.';
        assert(s[k] == '.');
    }
    assert(m =~= h.subrange(first_digit(h) as int, (first_digit(h) + m.len()) as int));
    if first_digit(h) + m.len() < h.len() {
        assert(h[(first_digit(h) + m.len()) as int] == rest[digit_run(rest) as int]);
    }
}

/// A container started by this tool is found again by its listing: the listing
/// filter is the label that every started container carries, written as Docker's
/// `key=value` label filter.
pub proof fn law_listing_selects_started_containers(labels: Seq<(String, String)>)
    requires
        labels.len() == 1,
        labels[0].0@ == LABEL_MANAGED_BY@,
        labels[0].1@ == LABEL_MANAGED_BY_VALUE@,
    ensures
        managed_filter() == labels[0].0@ + "="@ + labels[0].1@,
{
}

/// The container table has one line per container after its heading, or one line
/// when there is no container.
pub proof fn law_table_report_size(cs: Seq<ContainerInfo>)
    ensures
        table_report(cs).len() == if cs.len() == 0 { 1 } else { cs.len() + 1 },
{
}


/// Trimmed text neither starts nor ends with white space, and trimming it again
/// changes nothing.
pub proof fn law_trim(s: Seq<char>)
    ensures
        trim(s).len() > 0 ==> !is_white_space(trim(s)[0]) && !is_white_space(trim(s).last()),
        trim(trim(s)) == trim(s),
        leading_space(s) + trim(s).len() <= s.len(),
        s.subrange(leading_space(s) as int, (leading_space(s) + trim(s).len()) as int) == trim(s),
        forall|k: int| 0 <= k < leading_space(s) ==> is_white_space(#[trigger] s[k]),
        forall|k: int| leading_space(s) + trim(s).len() <= k < s.len() ==> is_white_space(#[trigger] s[k]),
{
    let u = s.subrange(leading_space(s) as int, s.len() as int);
    let t = trim(s);
    lemma_leading_space(s);
    lemma_trailing_space(u);
    assert forall|k: int| leading_space(s) + t.len() <= k < s.len() implies is_white_space(#[trigger] s[k]) by {
        assert(s[k] == u[k - leading_space(s)]);
    }
    assert(s.subrange(leading_space(s) as int, (leading_space(s) + t.len()) as int) =~= t);
    if t.len() > 0 {
        assert(t[0] == s[leading_space(s) as int]);
        assert(t.last() == u[u.len() - 1 - trailing_space(u)]);
        assert(leading_space(t) == 0);
        assert(trailing_space(t) == 0);
        assert(t.subrange(0, t.len() as int) =~= t);
    } else {
        assert(leading_space(t) == 0);
        assert(t.subrange(0, 0) =~= t);
    }
}

/// When each field fits its column, the columns of the container table line up:
/// the name starts at 15, the image at 46, the state at 72 and the status at 85.
pub proof fn law_table_columns(
    id: Seq<char>,
    name: Seq<char>,
    image: Seq<char>,
    state: Seq<char>,
    status: Seq<char>,
)
    requires
        id.len() <= 14,
        name.len() <= 30,
        image.len() <= 25,
        state.len() <= 12,
    ensures
        table_line(id, name, image, state, status).len() == 85 + status.len(),
        table_line(id, name, image, state, status).subrange(0, id.len() as int) == id,
        table_line(id, name, image, state, status).subrange(15, 15 + name.len() as int) == name,
        table_line(id, name, image, state, status).subrange(46, 46 + image.len() as int) == image,
        table_line(id, name, image, state, status).subrange(72, 72 + state.len() as int) == state,
        table_line(id, name, image, state, status).subrange(85, 85 + status.len() as int) == status,
{
    reveal_strlit(" ");
    let line = table_line(id, name, image, state, status);
    assert(pad_right(id, 14).len() == 14);
    assert(pad_right(name, 30).len() == 30);
    assert(pad_right(image, 25).len() == 25);
    assert(pad_right(state, 12).len() == 12);
    assert(line.subrange(0, id.len() as int) =~= id);
    assert(line.subrange(15, 15 + name.len() as int) =~= name);
    assert(line.subrange(46, 46 + image.len() as int) =~= image);
    assert(line.subrange(72, 72 + state.len() as int) =~= state);
    assert(line.subrange(85, 85 + status.len() as int) =~= status);
}


/// The start command is passed last, after `--start-cmd`, whenever one is given,
/// whatever else the build has; the build command comes right before it (or last,
/// without a start command) after `--build-cmd`; and the packages follow `--pkgs`
/// right after the environment, when there are any.
pub proof fn law_build_command_flags(cfg: BuildConfig, detected: Option<Seq<char>>)
    ensures
        ({
            let a = build_command(cfg, detected);
            let n = a.len() as int;
            let e = (4 + 2 * build_env(views(cfg.env@), detected).len()) as int;
            let p = views(cfg.pkgs@);
            &&& cfg.start_cmd matches Some(c) ==> n >= 2 && a[n - 2] == "--start-cmd"@ && a[n - 1] == c@
            &&& cfg.build_cmd matches Some(b) ==> (cfg.start_cmd is None ==> n >= 2 && a[n - 2] == "--build-cmd"@
                && a[n - 1] == b@)
            &&& cfg.build_cmd matches Some(b) ==> (cfg.start_cmd is Some ==> n >= 4 && a[n - 4] == "--build-cmd"@
                && a[n - 3] == b@)
            &&& n == e + (if p.len() == 0 { 0 } else { p.len() + 1 }) + (if cfg.build_cmd is Some { 2int } else { 0 })
                + (if cfg.start_cmd is Some { 2int } else { 0 })
            &&& p.len() > 0 ==> a[e] == "--pkgs"@ && a.subrange(e + 1, e + 1 + p.len()) == p
        }),
{
    let env = build_env(views(cfg.env@), detected);
    law_env_args_pairs(env);
    let a = build_command(cfg, detected);
    let e = (4 + 2 * env.len()) as int;
    let p = views(cfg.pkgs@);
    let head = seq!["build"@, cfg.source@, "--name"@, cfg.image_name@] + env_args(env);
    assert(head.len() == e);
    let with_pkgs = head + crate::nixpacks::pkgs_args(p);
    let with_build = with_pkgs + crate::nixpacks::optional_flag("--build-cmd"@, crate::nixpacks::opt_view(cfg.build_cmd));
    assert(a == with_build + crate::nixpacks::optional_flag("--start-cmd"@, crate::nixpacks::opt_view(cfg.start_cmd)));
    if p.len() > 0 {
        assert(a[e] == with_pkgs[e]);
        assert(a.subrange(e + 1, e + 1 + p.len()) =~= p);
    }
}

/// The Node.js version pinned for a requirement that begins with non-digits other
/// than `.` (such as `^`, `>=` or `v`), then a run of digits `d`, then nothing or a
/// non-digit, is `d`: a caret, a comparison or a prefix never changes it.
pub proof fn law_node_version_reads_leading_major(p: Seq<char>, d: Seq<char>, q: Seq<char>)
    requires
        forall|i: int| 0 <= i < p.len() ==> !is_ascii_digit(#[trigger] p[i]) && p[i] != '.',
        d.len() > 0,
        forall|i: int| 0 <= i < d.len() ==> is_ascii_digit(#[trigger] d[i]),
        q.len() > 0 ==> !is_ascii_digit(q[0]),
    ensures
        node_version_for(Some(p + d + q)) == d,
{
    let e = p + d + q;
    lemma_first_index(e, '.');
    let fi = first_index(e, '.');
    assert(fi >= p.len() + d.len()) by {
        if fi < p.len() + d.len() {
            if fi < p.len() {
                assert(e[fi as int] == p[fi as int]);
            } else {
                assert(e[fi as int] == d[fi - p.len()]);
            }
        }
    }
    let h = before_first_dot(e);
    lemma_first_digit(h);
    assert(first_digit(h) == p.len()) by {
        if first_digit(h) < p.len() {
            assert(h[first_digit(h) as int] == p[first_digit(h) as int]);
        } else if first_digit(h) > p.len() {
            assert(h[p.len() as int] == d[0]);
        }
    }
    let rest = h.subrange(first_digit(h) as int, h.len() as int);
    lemma_digit_run(rest);
    assert(digit_run(rest) == d.len()) by {
        if digit_run(rest) < d.len() {
            assert(rest[digit_run(rest) as int] == d[digit_run(rest) as int]);
        } else if digit_run(rest) > d.len() {
            assert(rest[d.len() as int] == q[0]);
        }
    }
    assert(major_version(e) =~= d);
}

/// A requirement with no digit before its first `.` pins the fallback version 22.
pub proof fn law_node_version_fallback(e: Seq<char>)
    requires
        forall|i: int| 0 <= i < first_index(e, '.') ==> !is_ascii_digit(#[trigger] e[i]),
    ensures
        node_version_for(Some(e)) == fallback_node_version(),
        node_version_for(None) == fallback_node_version(),
{
    lemma_first_index(e, '.');
    let h = before_first_dot(e);
    lemma_first_digit(h);
    if first_digit(h) < h.len() {
        assert(h[first_digit(h) as int] == e[first_digit(h) as int]);
    }
    let rest = h.subrange(first_digit(h) as int, h.len() as int);
    assert(rest.len() == 0);
}

/// Whatever the widths of the fields, a table line is the id, padding to 14, a
/// space, the name, padding to 30, a space, the image, padding to 25, a space, the
/// state, padding to 12, a space and the status: a field that is too wide pushes
/// the following ones to the right and never swallows the separating space.
pub proof fn law_table_line_layout(
    id: Seq<char>,
    name: Seq<char>,
    image: Seq<char>,
    state: Seq<char>,
    status: Seq<char>,
)
    ensures
        ({
            let line = table_line(id, name, image, state, status);
            let a = if id.len() < 14 { 14 } else { id.len() as int };
            let b = if name.len() < 30 { 30 } else { name.len() as int };
            let c = if image.len() < 25 { 25 } else { image.len() as int };
            let e = if state.len() < 12 { 12 } else { state.len() as int };
            &&& line.len() == a + b + c + e + 4 + status.len()
            &&& line.subrange(0, id.len() as int) == id
            &&& line[a] == ' '
            &&& line.subrange(a + 1, a + 1 + name.len()) == name
            &&& line[a + 1 + b] == ' '
            &&& line.subrange(a + b + 2, a + b + 2 + image.len()) == image
            &&& line[a + b + 2 + c] == ' '
            &&& line.subrange(a + b + c + 3, a + b + c + 3 + state.len()) == state
            &&& line[a + b + c + 3 + e] == ' '
            &&& line.subrange(a + b + c + e + 4, line.len() as int) == status
            &&& forall|i: int| id.len() <= i < a ==> #[trigger] line[i] == ' '
            &&& forall|i: int| a + 1 + name.len() <= i < a + 1 + b ==> #[trigger] line[i] == ' '
            &&& forall|i: int| a + b + 2 + image.len() <= i < a + b + 2 + c ==> #[trigger] line[i] == ' '
            &&& forall|i: int| a + b + c + 3 + state.len() <= i < a + b + c + 3 + e ==> #[trigger] line[i] == ' '
        }),
{
    reveal_strlit(" ");
    law_pad_right(id, 14);
    law_pad_right(name, 30);
    law_pad_right(image, 25);
    law_pad_right(state, 12);
    let line = table_line(id, name, image, state, status);
    let a = if id.len() < 14 { 14 } else { id.len() as int };
    let b = if name.len() < 30 { 30 } else { name.len() as int };
    let c = if image.len() < 25 { 25 } else { image.len() as int };
    let e = if state.len() < 12 { 12 } else { state.len() as int };
    let pi = pad_right(id, 14);
    let pn = pad_right(name, 30);
    let pm = pad_right(image, 25);
    let ps = pad_right(state, 12);
    assert(line =~= pi + " "@ + pn + " "@ + pm + " "@ + ps + " "@ + status);
    assert(line.subrange(0, id.len() as int) =~= id);
    assert(line.subrange(a + 1, a + 1 + name.len()) =~= name);
    assert(line.subrange(a + b + 2, a + b + 2 + image.len()) =~= image);
    assert(line.subrange(a + b + c + 3, a + b + c + 3 + state.len()) =~= state);
    assert(line.subrange(a + b + c + e + 4, line.len() as int) =~= status);
    assert forall|i: int| id.len() <= i < a implies #[trigger] line[i] == ' ' by {
        assert(line[i] == pi[i]);
    }
    assert forall|i: int| a + 1 + name.len() <= i < a + 1 + b implies #[trigger] line[i] == ' ' by {
        assert(line[i] == pn[i - a - 1]);
    }
    assert forall|i: int| a + b + 2 + image.len() <= i < a + b + 2 + c implies #[trigger] line[i] == ' ' by {
        assert(line[i] == pm[i - a - b - 2]);
    }
    assert forall|i: int| a + b + c + 3 + state.len() <= i < a + b + c + 3 + e implies #[trigger] line[i] == ' ' by {
        assert(line[i] == ps[i - a - b - c - 3]);
    }
}

/// The inspect report has six lines, each a nine-character label followed by the
/// inspected value as it came: the whole id, the name without leading slashes, the
/// whole image reference with its tag, the state, the start time and the ports.
pub proof fn law_inspect_report_fields(d: ContainerDetails)
    ensures
        ({
            let r = inspect_report(d);
            &&& r.len() == 6
            &&& forall|k: int| 0 <= k < 6 ==> (#[trigger] r[k]).len() >= 9
            &&& r[0].subrange(9, r[0].len() as int) == or_empty(d.id)
            &&& r[1].subrange(9, r[1].len() as int) == shown_name(or_empty(d.name))
            &&& r[2].subrange(0, 9) == "Image:   "@
            &&& r[2].subrange(9, r[2].len() as int) == or_empty(d.image)
            &&& r[3].subrange(9, r[3].len() as int) == or_empty(d.status)
            &&& r[4].subrange(9, r[4].len() as int) == or_empty(d.started_at)
            &&& r[5].subrange(9, r[5].len() as int) == ports_text(d.ports)
        }),
{
    reveal_strlit("ID:      ");
    reveal_strlit("Name:    ");
    reveal_strlit("Image:   ");
    reveal_strlit("State:   ");
    reveal_strlit("Started: ");
    reveal_strlit("Ports:   ");
    let r = inspect_report(d);
    assert(r[0].subrange(9, r[0].len() as int) =~= or_empty(d.id));
    assert(r[1].subrange(9, r[1].len() as int) =~= shown_name(or_empty(d.name)));
    assert(r[2].subrange(0, 9) =~= "Image:   "@);
    assert(r[2].subrange(9, r[2].len() as int) =~= or_empty(d.image));
    assert(r[3].subrange(9, r[3].len() as int) =~= or_empty(d.status));
    assert(r[4].subrange(9, r[4].len() as int) =~= or_empty(d.started_at));
    assert(r[5].subrange(9, r[5].len() as int) =~= ports_text(d.ports));
}

/// When no entry pins the Node.js version, a detected version `v` is added as
/// `NIXPACKS_NODE_VERSION=<v>` after all the given entries, whatever they are;
/// when an entry pins it, or nothing was detected, the entries are kept as given.
pub proof fn law_build_env_pins_detected(env: Seq<Seq<char>>, detected: Option<Seq<char>>)
    ensures
        detected matches Some(v) ==> ((forall|i: int| 0 <= i < env.len() ==> !node_version_key().is_prefix_of(
            #[trigger] env[i],
        )) ==> build_env(env, detected) == env.push(node_version_key() + v)),
        detected matches Some(v) ==> ((exists|i: int| 0 <= i < env.len() && node_version_key().is_prefix_of(
            #[trigger] env[i],
        )) ==> build_env(env, detected) == env),
        detected is None ==> build_env(env, detected) == env,
        detected is Some ==> has_entry_with_prefix(build_env(env, detected), node_version_key()),
{
    if let Some(v) = detected {
        if !has_entry_with_prefix(env, node_version_key()) {
            let r = env.push(node_version_key() + v);
            assert(node_version_key().is_prefix_of(r[env.len() as int])) by {
                assert((node_version_key() + v).subrange(0, node_version_key().len() as int) =~= node_version_key());
            }
        }
    }
}


/// The container table is the heading and then, for each container in order, the
/// line of its shortened id, name, image, state and status; with no container it is
/// the single line saying so.
pub proof fn law_table_report_rows(cs: Seq<ContainerInfo>)
    ensures
        cs.len() == 0 ==> table_report(cs) == seq!["No containers found."@],
        cs.len() > 0 ==> table_report(cs)[0] == table_line("CONTAINER ID"@, "NAME"@, "IMAGE"@, "STATE"@, "STATUS"@),
        forall|i: int|
            0 <= i < cs.len() ==> table_report(cs)[i + 1] == table_line(
                short_id((#[trigger] cs[i]).id@),
                cs[i].name@,
                cs[i].image@,
                cs[i].state@,
                cs[i].status@,
            ),
{
}


/// A host binding is shown as its address, `:` and its port, with `0.0.0.0` for a
/// missing address and `?` for a missing port; the bindings of a port are shown
/// comma-separated, each in turn; a container without port information shows
/// `none`.
pub proof fn law_port_texts(b: HostBinding, bs: Seq<HostBinding>)
    ensures
        binding_text(b) == or_default_text(b.host_ip, "0.0.0.0"@) + ":"@ + or_default_text(b.host_port, "?"@),
        ports_text(None) == "none"@,
        bs.len() > 1 ==> crate::text::join(bs.map_values(|x: HostBinding| binding_text(x)), ", "@)
            == crate::text::join(bs.drop_last().map_values(|x: HostBinding| binding_text(x)), ", "@) + ", "@
            + binding_text(bs.last()),
        bs.len() == 1 ==> crate::text::join(bs.map_values(|x: HostBinding| binding_text(x)), ", "@) == binding_text(bs[0]),
{
    let m = bs.map_values(|x: HostBinding| binding_text(x));
    if bs.len() > 1 {
        assert(m.drop_last() =~= bs.drop_last().map_values(|x: HostBinding| binding_text(x)));
    }
}

/// An optional text, or `default` when it is absent.
pub open spec fn or_default_text(o: Option<String>, default: Seq<char>) -> Seq<char> {
    match o {
        Some(s) => s@,
        None => default,
    }
}

} // verus!
