//! Properties of the library that span its functions, proved over the spec
//! functions that their contracts use.

use vstd::prelude::*;
use crate::create::{
    cloud_of_text, cloud_type_of, gpu_type_id_list, number_or, requested_ports,
    CreateOnDemandPodRequest, CreateSpotPodRequest, OnDemandPodPayload, PodCreateInput,
    COMMUNITY_CLOUD, DEFAULT_CONTAINER_DISK_IN_GB, DEFAULT_GPU_COUNT, DEFAULT_MIN_RAM_PER_GPU,
    DEFAULT_MIN_VCPU_PER_GPU, DEFAULT_VOLUME_IN_GB, SECURE_CLOUD,
};
use crate::client::{member_path, rest_url_text, slash_join, RUNPOD_REST_BASE_URL};
use crate::env::{env_map, EnvVar};
use crate::pods::{
    describes_machine, describes_pod_but_runtime, flag_or_false, gpu_count_of, is_full_info,
    is_listing_info, MachineInfo, PodInfoFull, PodMachineInfo, Pod, PodRuntime,
};
use crate::text::{
    is_white_space, join_with, port_list, split_commas, text_or_empty, trim, trim_end, trim_start,
    trimmed_nonempty,
};

verus! {

/// In the map of a list of environment variables, the key of a variable that no
/// later variable repeats maps to that variable's value: the last one wins.
pub proof fn law_env_last_wins(env: Seq<EnvVar>, i: int)
    requires
        0 <= i < env.len(),
        forall|j: int| i < j < env.len() ==> env[j].key@ != env[i].key@,
    ensures
        env_map(env).contains_key(env[i].key@),
        env_map(env)[env[i].key@] == env[i].value@,
    decreases env.len(),
{
    if i < env.len() - 1 {
        law_env_last_wins(env.drop_last(), i);
    }
}

/// A key is in the map of a list of environment variables exactly when some
/// variable of the list has it.
pub proof fn law_env_keys(env: Seq<EnvVar>, k: Seq<char>)
    ensures
        env_map(env).contains_key(k) <==> exists|j: int| 0 <= j < env.len() && env[j].key@ == k,
    decreases env.len(),
{
    if env.len() > 0 {
        let prev = env.drop_last();
        law_env_keys(prev, k);
        if env_map(prev).contains_key(k) {
            let j = choose|j: int| 0 <= j < prev.len() && prev[j].key@ == k;
            assert(env[j].key@ == k);
        }
        if env.last().key@ == k {
            assert(env[env.len() - 1].key@ == k);
        }
        if exists|j: int| 0 <= j < env.len() && env[j].key@ == k {
            let j = choose|j: int| 0 <= j < env.len() && env[j].key@ == k;
            if j < env.len() - 1 {
                assert(prev[j].key@ == k);
            }
        }
    }
}

/// `p` holds no comma.
pub open spec fn comma_free(p: Seq<char>) -> bool {
    forall|k: int| 0 <= k < p.len() ==> p[k] != ','
}

/// `p` is a clean port: not empty, no comma, no whitespace at either end.
pub open spec fn clean_port(p: Seq<char>) -> bool {
    &&& p.len() > 0
    &&& comma_free(p)
    &&& !is_white_space(p[0])
    &&& !is_white_space(p.last())
}

proof fn lemma_split_pieces_comma_free(s: Seq<char>)
    ensures
        split_commas(s).len() >= 1,
        forall|i: int| 0 <= i < split_commas(s).len() ==> comma_free(#[trigger] split_commas(s)[i]),
    decreases s.len(),
{
    if s.len() > 0 {
        lemma_split_pieces_comma_free(s.drop_last());
        let prev = split_commas(s.drop_last());
        if s.last() != ',' {
            let last = prev.last().push(s.last());
            assert forall|i: int| 0 <= i < split_commas(s).len() implies comma_free(
                #[trigger] split_commas(s)[i],
            ) by {
                if i == prev.len() - 1 {
                    assert(prev[prev.len() - 1] == prev.last());
                    assert(comma_free(prev.last()));
                    assert(split_commas(s)[i] == last);
                } else {
                    assert(split_commas(s)[i] == prev[i]);
                }
            }
        } else {
            assert forall|i: int| 0 <= i < split_commas(s).len() implies comma_free(
                #[trigger] split_commas(s)[i],
            ) by {
                if i < prev.len() {
                    assert(split_commas(s)[i] == prev[i]);
                }
            }
        }
    }
}

proof fn lemma_trim_start_is_suffix(s: Seq<char>)
    ensures
        exists|k: int| 0 <= k <= s.len() && trim_start(s) == s.subrange(k, s.len() as int),
        trim_start(s).len() > 0 ==> !is_white_space(trim_start(s)[0]),
    decreases s.len(),
{
    if s.len() > 0 && is_white_space(s[0]) {
        lemma_trim_start_is_suffix(s.drop_first());
        let k = choose|k: int|
            0 <= k <= s.drop_first().len() && trim_start(s.drop_first()) == s.drop_first().subrange(
                k,
                s.drop_first().len() as int,
            );
        assert(s.drop_first().subrange(k, s.drop_first().len() as int) =~= s.subrange(
            k + 1,
            s.len() as int,
        ));
    } else {
        assert(s.subrange(0, s.len() as int) =~= s);
    }
}

proof fn lemma_trim_end_is_prefix(s: Seq<char>)
    ensures
        exists|k: int| 0 <= k <= s.len() && trim_end(s) == s.subrange(0, k),
        trim_end(s).len() > 0 ==> !is_white_space(trim_end(s).last()),
    decreases s.len(),
{
    if s.len() > 0 && is_white_space(s.last()) {
        lemma_trim_end_is_prefix(s.drop_last());
        let k = choose|k: int|
            0 <= k <= s.drop_last().len() && trim_end(s.drop_last()) == s.drop_last().subrange(0, k);
        assert(s.drop_last().subrange(0, k) =~= s.subrange(0, k));
    } else {
        assert(s.subrange(0, s.len() as int) =~= s);
    }
}

proof fn lemma_trim_clean(p: Seq<char>)
    requires
        comma_free(p),
        trim(p).len() > 0,
    ensures
        clean_port(trim(p)),
{
    lemma_trim_start_is_suffix(p);
    let a = trim_start(p);
    lemma_trim_end_is_prefix(a);
    let k1 = choose|k: int| 0 <= k <= p.len() && a == p.subrange(k, p.len() as int);
    let k2 = choose|k: int| 0 <= k <= a.len() && trim_end(a) == a.subrange(0, k);
    let t = trim(p);
    assert(t == a.subrange(0, k2));
    assert(t[0] == a[0]);
    assert forall|k: int| 0 <= k < t.len() implies t[k] != ',' by {
        assert(t[k] == p[k1 + k]);
    }
}

proof fn lemma_trimmed_nonempty_clean(pieces: Seq<Seq<char>>)
    requires
        forall|i: int| 0 <= i < pieces.len() ==> comma_free(#[trigger] pieces[i]),
    ensures
        forall|i: int|
            0 <= i < trimmed_nonempty(pieces).len() ==> clean_port(
                #[trigger] trimmed_nonempty(pieces)[i],
            ),
    decreases pieces.len(),
{
    if pieces.len() > 0 {
        let prev = pieces.drop_last();
        assert forall|i: int| 0 <= i < prev.len() implies comma_free(#[trigger] prev[i]) by {
            assert(prev[i] == pieces[i]);
        }
        lemma_trimmed_nonempty_clean(prev);
        let t = trim(pieces.last());
        if t.len() > 0 {
            assert(comma_free(pieces[pieces.len() - 1]));
            lemma_trim_clean(pieces.last());
            let r = trimmed_nonempty(pieces);
            assert forall|i: int| 0 <= i < r.len() implies clean_port(#[trigger] r[i]) by {
                if i < r.len() - 1 {
                    assert(r[i] == trimmed_nonempty(prev)[i]);
                }
            }
        }
    }
}

/// Every port that a comma-separated list yields is clean: not empty, without
/// a comma, and without whitespace at either end.
pub proof fn law_ports_are_clean(s: Seq<char>)
    ensures
        forall|i: int| 0 <= i < port_list(s).len() ==> clean_port(#[trigger] port_list(s)[i]),
{
    lemma_split_pieces_comma_free(s);
    lemma_trimmed_nonempty_clean(split_commas(s));
}

proof fn lemma_split_concat(a: Seq<char>, b: Seq<char>)
    ensures
        split_commas(a + seq![','] + b) == split_commas(a) + split_commas(b),
    decreases b.len(),
{
    let s = a + seq![','] + b;
    if b.len() == 0 {
        assert(s.drop_last() =~= a);
        assert(split_commas(s) =~= split_commas(a) + split_commas(b));
    } else {
        assert(s.drop_last() =~= a + seq![','] + b.drop_last());
        lemma_split_concat(a, b.drop_last());
        lemma_split_pieces_comma_free(b.drop_last());
        lemma_split_pieces_comma_free(a);
        assert(s.last() == b.last());
        assert(split_commas(s) =~= split_commas(a) + split_commas(b));
    }
}

proof fn lemma_split_plain(x: Seq<char>)
    requires
        comma_free(x),
    ensures
        split_commas(x) == seq![x],
    decreases x.len(),
{
    if x.len() > 0 {
        assert(comma_free(x.drop_last()));
        lemma_split_plain(x.drop_last());
        assert(x.drop_last().push(x.last()) =~= x);
        assert(split_commas(x) =~= seq![x]);
    } else {
        assert(x =~= Seq::<char>::empty());
    }
}

proof fn lemma_split_join(list: Seq<Seq<char>>)
    requires
        list.len() >= 1,
        forall|i: int| 0 <= i < list.len() ==> comma_free(#[trigger] list[i]),
    ensures
        split_commas(join_with(list, seq![','])) == list,
    decreases list.len(),
{
    if list.len() == 1 {
        assert(comma_free(list[0]));
        lemma_split_plain(list[0]);
        assert(seq![list[0]] =~= list);
    } else {
        let prev = list.drop_last();
        assert forall|i: int| 0 <= i < prev.len() implies comma_free(#[trigger] prev[i]) by {
            assert(prev[i] == list[i]);
        }
        lemma_split_join(prev);
        assert(comma_free(list[list.len() - 1]));
        lemma_split_plain(list.last());
        lemma_split_concat(join_with(prev, seq![',']), list.last());
        assert(prev + seq![list.last()] =~= list);
    }
}

proof fn lemma_trim_fixed(p: Seq<char>)
    requires
        clean_port(p),
    ensures
        trim(p) == p,
{
}

proof fn lemma_trimmed_nonempty_fixed(list: Seq<Seq<char>>)
    requires
        forall|i: int| 0 <= i < list.len() ==> clean_port(#[trigger] list[i]),
    ensures
        trimmed_nonempty(list) == list,
    decreases list.len(),
{
    if list.len() > 0 {
        let prev = list.drop_last();
        assert forall|i: int| 0 <= i < prev.len() implies clean_port(#[trigger] prev[i]) by {
            assert(prev[i] == list[i]);
        }
        lemma_trimmed_nonempty_fixed(prev);
        assert(clean_port(list[list.len() - 1]));
        lemma_trim_fixed(list.last());
        assert(prev.push(list.last()) =~= list);
    }
}

/// Writing the ports of a list back out, comma-separated, and reading them again
/// gives the same ports.
pub proof fn law_ports_round_trip(s: Seq<char>)
    ensures
        port_list(join_with(port_list(s), seq![','])) == port_list(s),
{
    let ports = port_list(s);
    law_ports_are_clean(s);
    if ports.len() == 0 {
        let e = join_with(ports, seq![',']);
        assert(e =~= Seq::<char>::empty());
        assert(split_commas(e) =~= seq![Seq::<char>::empty()]);
        let z = seq![Seq::<char>::empty()];
        assert(z.drop_last() =~= Seq::<Seq<char>>::empty());
        assert(z.last() == Seq::<char>::empty());
        assert(trim_start(Seq::<char>::empty()) == Seq::<char>::empty());
        assert(trim(Seq::<char>::empty()) == Seq::<char>::empty());
        assert(trimmed_nonempty(z.drop_last()) == Seq::<Seq<char>>::empty());
        assert(trimmed_nonempty(z) =~= Seq::<Seq<char>>::empty());
    } else {
        lemma_split_join(ports);
        lemma_trimmed_nonempty_fixed(ports);
    }
}

/// The cloud type that a request selects is `SECURE` or `COMMUNITY`, and selecting
/// again from it gives it back.
pub proof fn law_cloud_type_normalized(requested: Option<String>)
    ensures
        cloud_type_of(requested) == SECURE_CLOUD@ || cloud_type_of(requested) == COMMUNITY_CLOUD@,
        cloud_of_text(cloud_type_of(requested)) == cloud_type_of(requested),
{
}

/// Two pod descriptions agree in every member but the runtime.
pub open spec fn agree_but_runtime(a: PodInfoFull, b: PodInfoFull) -> bool {
    &&& a.id@ == b.id@
    &&& a.name@ == b.name@
    &&& a.desired_status@ == b.desired_status@
    &&& a.last_status_change@ == b.last_status_change@
    &&& a.machine_id@ == b.machine_id@
    &&& a.gpu_count == b.gpu_count
    &&& a.memory_in_gb == b.memory_in_gb
    &&& a.vcpu_count == b.vcpu_count
    &&& a.storage.container_disk_in_gb == b.storage.container_disk_in_gb
    &&& a.storage.volume_in_gb == b.storage.volume_in_gb
    &&& a.storage.volume_mount_path@ == b.storage.volume_mount_path@
    &&& a.storage.volume_encrypted == b.storage.volume_encrypted
    &&& a.cost_per_hr == b.cost_per_hr
    &&& a.adjusted_cost_per_hr == b.adjusted_cost_per_hr
    &&& a.interruptible == b.interruptible
    &&& a.ports == b.ports
    &&& a.public_ip == b.public_ip
    &&& a.image@ == b.image@
    &&& a.env == b.env
    &&& a.last_started_at == b.last_started_at
    &&& a.network_volume == b.network_volume
    &&& match (a.machine, b.machine) {
        (Some(x), Some(y)) => x.id@ == y.id@ && x.location@ == y.location@ && x.support_public_ip
            == y.support_public_ip && x.secure_cloud == y.secure_cloud,
        (None, None) => true,
        _ => false,
    }
    &&& a.docker_entrypoint == b.docker_entrypoint
    &&& a.docker_start_cmd == b.docker_start_cmd
}

/// The description of a pod that a listing gives agrees with the one that reading
/// the pod gives in every member but the runtime, which the listing leaves out.
pub proof fn law_listing_agrees_with_get(full: PodInfoFull, listed: PodInfoFull, pod: Pod)
    requires
        is_full_info(full, pod),
        is_listing_info(listed, pod),
    ensures
        agree_but_runtime(full, listed),
        listed.runtime is None,
{
}


proof fn trim_start_index(s: Seq<char>) -> (k: int)
    ensures
        0 <= k <= s.len(),
        trim_start(s) == s.subrange(k, s.len() as int),
        forall|m: int| 0 <= m < k ==> is_white_space(#[trigger] s[m]),
        k < s.len() ==> !is_white_space(s[k]),
    decreases s.len(),
{
    if s.len() > 0 && is_white_space(s[0]) {
        let d = s.drop_first();
        let k = trim_start_index(d);
        assert(d.subrange(k, d.len() as int) =~= s.subrange(k + 1, s.len() as int));
        assert forall|m: int| 0 <= m < k + 1 implies is_white_space(#[trigger] s[m]) by {
            if m > 0 {
                assert(s[m] == d[m - 1]);
            }
        }
        k + 1
    } else {
        assert(s.subrange(0, s.len() as int) =~= s);
        0
    }
}

proof fn trim_end_index(s: Seq<char>) -> (k: int)
    ensures
        0 <= k <= s.len(),
        trim_end(s) == s.subrange(0, k),
        forall|m: int| k <= m < s.len() ==> is_white_space(#[trigger] s[m]),
        k > 0 ==> !is_white_space(s[k - 1]),
    decreases s.len(),
{
    if s.len() > 0 && is_white_space(s.last()) {
        let d = s.drop_last();
        let k = trim_end_index(d);
        assert(d.subrange(0, k) =~= s.subrange(0, k));
        assert forall|m: int| k <= m < s.len() implies is_white_space(#[trigger] s[m]) by {
            if m < s.len() - 1 {
                assert(s[m] == d[m]);
            }
        }
        k
    } else {
        assert(s.subrange(0, s.len() as int) =~= s);
        s.len() as int
    }
}

/// Trimming removes whitespace from both ends and nothing else: the result is a
/// stretch of the text, everything before and after it is whitespace, and where
/// it is not empty it neither starts nor ends with whitespace.
pub proof fn law_trim_removes_only_outer_whitespace(s: Seq<char>)
    ensures
        exists|i: int, j: int|
            0 <= i <= j <= s.len() && trim(s) == s.subrange(i, j) && (forall|m: int|
                0 <= m < i ==> is_white_space(#[trigger] s[m])) && (forall|m: int|
                j <= m < s.len() ==> is_white_space(#[trigger] s[m])) && (i < j ==> !is_white_space(
                s[i],
            ) && !is_white_space(s[j - 1])),
{
    let i = trim_start_index(s);
    let a = trim_start(s);
    let k = trim_end_index(a);
    let j = i + k;
    assert(a.subrange(0, k) =~= s.subrange(i, j));
    assert forall|m: int| j <= m < s.len() implies is_white_space(#[trigger] s[m]) by {
        assert(s[m] == a[m - i]);
    }
    if i < j {
        assert(s[i] == a[0]);
        assert(s[j - 1] == a[k - 1]);
    }
    assert(trim(s) == s.subrange(i, j));
}

proof fn lemma_trimmed_nonempty_concat(x: Seq<Seq<char>>, y: Seq<Seq<char>>)
    ensures
        trimmed_nonempty(x + y) == trimmed_nonempty(x) + trimmed_nonempty(y),
    decreases y.len(),
{
    if y.len() == 0 {
        assert(x + y =~= x);
        assert(trimmed_nonempty(x) + trimmed_nonempty(y) =~= trimmed_nonempty(x));
    } else {
        assert((x + y).drop_last() =~= x + y.drop_last());
        assert((x + y).last() == y.last());
        lemma_trimmed_nonempty_concat(x, y.drop_last());
        let t = trim(y.last());
        if t.len() > 0 {
            assert(trimmed_nonempty(x + y) =~= trimmed_nonempty(x) + trimmed_nonempty(y));
        } else {
            assert(trimmed_nonempty(x + y) =~= trimmed_nonempty(x) + trimmed_nonempty(y));
        }
    }
}

/// The ports of two lists joined by a comma are the ports of the first followed by
/// the ports of the second: no port is lost, none added, the order kept.
pub proof fn law_ports_of_joined_lists(a: Seq<char>, b: Seq<char>)
    ensures
        port_list(a + seq![','] + b) == port_list(a) + port_list(b),
{
    lemma_split_concat(a, b);
    lemma_trimmed_nonempty_concat(split_commas(a), split_commas(b));
}

/// Text without a comma names one port, itself trimmed, unless it is all
/// whitespace, when it names none.
pub proof fn law_ports_of_one_piece(s: Seq<char>)
    requires
        comma_free(s),
    ensures
        trim(s).len() > 0 ==> port_list(s) == seq![trim(s)],
        trim(s).len() == 0 ==> port_list(s).len() == 0,
{
    lemma_split_plain(s);
    let z = seq![s];
    assert(z.drop_last() =~= Seq::<Seq<char>>::empty());
    assert(z.last() == s);
    assert(trimmed_nonempty(z.drop_last()) == Seq::<Seq<char>>::empty());
    assert(Seq::<Seq<char>>::empty().push(trim(s)) =~= seq![trim(s)]);
}

/// The cloud type that a request selects: `COMMUNITY` exactly where it asks for
/// `COMMUNITY`, `SECURE` otherwise, and `SECURE` where it asks for nothing.
pub proof fn law_cloud_type_choice(requested: Option<String>)
    ensures
        requested matches Some(c) && c@ == COMMUNITY_CLOUD@ ==> cloud_type_of(requested)
            == COMMUNITY_CLOUD@,
        requested matches Some(c) && c@ != COMMUNITY_CLOUD@ ==> cloud_type_of(requested)
            == SECURE_CLOUD@,
        requested is None ==> cloud_type_of(requested) == SECURE_CLOUD@,
{
}

/// In the body that creates an on-demand pod, every number the request gives is
/// sent as given, and only a number it leaves out takes its default: 1 GPU, a
/// 20 GB volume, a 50 GB container disk, 2 vCPUs and 8 GB of RAM per GPU.
pub proof fn law_on_demand_numbers_sent_as_given(req: CreateOnDemandPodRequest, p: OnDemandPodPayload)
    requires
        p.gpu_count == number_or(req.gpu_count, DEFAULT_GPU_COUNT),
        p.volume_in_gb == number_or(req.volume_in_gb, DEFAULT_VOLUME_IN_GB),
        p.container_disk_in_gb == number_or(req.container_disk_in_gb, DEFAULT_CONTAINER_DISK_IN_GB),
        p.min_vcpu_per_gpu == number_or(req.min_vcpu_count, DEFAULT_MIN_VCPU_PER_GPU),
        p.min_ram_per_gpu == number_or(req.min_memory_in_gb, DEFAULT_MIN_RAM_PER_GPU),
    ensures
        req.gpu_count matches Some(v) ==> p.gpu_count == v,
        req.gpu_count is None ==> p.gpu_count == 1,
        req.volume_in_gb matches Some(v) ==> p.volume_in_gb == v,
        req.volume_in_gb is None ==> p.volume_in_gb == 20,
        req.container_disk_in_gb matches Some(v) ==> p.container_disk_in_gb == v,
        req.container_disk_in_gb is None ==> p.container_disk_in_gb == 50,
        req.min_vcpu_count matches Some(v) ==> p.min_vcpu_per_gpu == v,
        req.min_vcpu_count is None ==> p.min_vcpu_per_gpu == 2,
        req.min_memory_in_gb matches Some(v) ==> p.min_ram_per_gpu == v,
        req.min_memory_in_gb is None ==> p.min_ram_per_gpu == 8,
{
}

/// In the body that creates an on-demand pod, the GPU type, name and image are
/// sent as the request gives them, empty where it gives none.
pub proof fn law_on_demand_texts_sent_as_given(req: CreateOnDemandPodRequest, p: OnDemandPodPayload)
    requires
        p.gpu_type_ids.deep_view() == seq![text_or_empty(req.gpu_type_id)],
        p.name@ == text_or_empty(req.name),
        p.image_name@ == text_or_empty(req.image_name),
    ensures
        req.gpu_type_id matches Some(t) ==> p.gpu_type_ids.deep_view() == seq![t@],
        req.gpu_type_id is None ==> p.gpu_type_ids.deep_view() == seq![Seq::<char>::empty()],
        req.name matches Some(t) ==> p.name@ == t@,
        req.name is None ==> p.name@.len() == 0,
        req.image_name matches Some(t) ==> p.image_name@ == t@,
        req.image_name is None ==> p.image_name@.len() == 0,
{
}

/// A spot pod is requested with exactly the GPU type it names, and with none where
/// it names the empty type.
pub proof fn law_spot_gpu_type_sent_as_given(req: CreateSpotPodRequest, r: PodCreateInput)
    requires
        r.gpu_type_ids matches Some(ids) && ids.deep_view() == gpu_type_id_list(req.gpu_type_id@),
    ensures
        req.gpu_type_id@.len() > 0 ==> r.gpu_type_ids->0.deep_view() == seq![req.gpu_type_id@],
        req.gpu_type_id@.len() == 0 ==> r.gpu_type_ids->0.deep_view().len() == 0,
{
}

/// An on-demand pod is requested with exactly the GPU type it names, and with none
/// where it names none or the empty type.
pub proof fn law_on_demand_gpu_type_sent_as_given(req: CreateOnDemandPodRequest, r: PodCreateInput)
    requires
        r.gpu_type_ids matches Some(ids) && ids.deep_view() == (match req.gpu_type_id {
            Some(id) => gpu_type_id_list(id@),
            None => Seq::<Seq<char>>::empty(),
        }),
    ensures
        req.gpu_type_id matches Some(id) ==> (id@.len() > 0 ==> r.gpu_type_ids->0.deep_view()
            == seq![id@]),
        (req.gpu_type_id is None || req.gpu_type_id->0@.len() == 0)
            ==> r.gpu_type_ids->0.deep_view().len() == 0,
{
}

/// The ports of a create input are every port the request's comma-separated list
/// names, in order, and none where the request gives no list.
pub proof fn law_create_input_ports(ports: Option<String>, r: PodCreateInput)
    requires
        r.ports matches Some(p) && p.deep_view() == requested_ports(ports),
    ensures
        ports matches Some(s) ==> r.ports->0.deep_view() == port_list(s@),
        ports is None ==> r.ports->0.deep_view().len() == 0,
{
}

/// A machine's description carries what the API reported: its ID and location as
/// given (empty where not given), and each flag as given (false where not given).
pub proof fn law_machine_described_as_reported(m: PodMachineInfo, mi: MachineInfo)
    requires
        describes_machine(m, mi),
    ensures
        mi.id matches Some(t) ==> m.id@ == t@,
        mi.id is None ==> m.id@.len() == 0,
        mi.location matches Some(t) ==> m.location@ == t@,
        mi.location is None ==> m.location@.len() == 0,
        mi.support_public_ip matches Some(b) ==> m.support_public_ip == b,
        mi.support_public_ip is None ==> !m.support_public_ip,
        mi.secure_cloud matches Some(b) ==> m.secure_cloud == b,
        mi.secure_cloud is None ==> !m.secure_cloud,
{
}

/// A pod's description, whether from reading the pod or from a listing, carries
/// what the API reported: its name, image and mount path as given (empty where
/// not given), its GPU count (0 without GPUs), and its machine described as
/// reported.
pub proof fn law_pod_described_as_reported(info: PodInfoFull, p: Pod)
    requires
        describes_pod_but_runtime(info, p),
    ensures
        p.name matches Some(t) ==> info.name@ == t@,
        p.name is None ==> info.name@.len() == 0,
        p.image matches Some(t) ==> info.image@ == t@,
        p.image is None ==> info.image@.len() == 0,
        p.volume_mount_path matches Some(t) ==> info.storage.volume_mount_path@ == t@,
        p.volume_mount_path is None ==> info.storage.volume_mount_path@.len() == 0,
        p.gpu matches Some(g) ==> info.gpu_count == g.count,
        p.gpu is None ==> info.gpu_count == 0,
        p.machine is None <==> info.machine is None,
        p.machine matches Some(mi) ==> (info.machine matches Some(m) && (mi.location matches Some(
            t,
        ) ==> m.location@ == t@) && (mi.id matches Some(t) ==> m.id@ == t@) && (
        mi.support_public_ip matches Some(b) ==> m.support_public_ip == b) && (
        mi.secure_cloud matches Some(b) ==> m.secure_cloud == b)),
{
    if let (Some(m), Some(mi)) = (info.machine, p.machine) {
        law_machine_described_as_reported(m, mi);
    }
}

/// Reading a pod reports its uptime as the API gave it, 0 seconds where the API
/// gave a runtime without one, and no runtime where it gave none.
pub proof fn law_pod_runtime_as_reported(info: PodInfoFull, p: Pod)
    requires
        is_full_info(info, p),
    ensures
        p.runtime matches Some(r) ==> (r.uptime_in_seconds matches Some(u) ==> info.runtime
            == Some(PodRuntime { uptime_in_seconds: u })),
        p.runtime matches Some(r) ==> (r.uptime_in_seconds is None ==> info.runtime == Some(
            PodRuntime { uptime_in_seconds: 0 },
        )),
        p.runtime is None ==> info.runtime is None,
{
}


/// Joining one line gives that line; joining one more line after others adds the
/// separator and then that line.
pub proof fn law_join_adds_separator_then_line(list: Seq<Seq<char>>, x: Seq<char>, sep: Seq<char>)
    ensures
        join_with(seq![x], sep) == x,
        list.len() > 0 ==> join_with(list.push(x), sep) == join_with(list, sep) + sep + x,
        list.len() == 0 ==> join_with(list.push(x), sep) == x,
{
    assert(seq![x].len() == 1);
    assert(list.push(x).drop_last() =~= list);
    assert(list.push(x).last() == x);
    if list.len() == 0 {
        assert(list.push(x) =~= seq![x]);
    }
}

/// A REST URL is the API's root, a slash, then the path; a member's path is its
/// collection, a slash, then its ID.
pub proof fn law_rest_urls(path: Seq<char>, collection: Seq<char>, id: Seq<char>)
    ensures
        rest_url_text(path) == RUNPOD_REST_BASE_URL@ + seq!['/'] + path,
        member_path(collection, id) == collection + seq!['/'] + id,
        slash_join(collection, id).len() == collection.len() + 1 + id.len(),
{
}

} // verus!
