use vstd::prelude::*;

verus! {

/// One hardware sensor as the host enumerated it: its label and its reading,
/// if it gave one,
/// already written in the sensor's native unit.
pub struct Sensor {
    pub label: String,
    pub reading: Option<String>,
}

/// `c` is the letter `lower` or its ASCII upper-case form `upper`.
pub open spec fn same_letter(c: char, lower: char, upper: char) -> bool {
    c == lower || c == upper
}

/// The label holds `cpu` at position `i`, ignoring ASCII case.
pub open spec fn cpu_at(label: Seq<char>, i: int) -> bool {
    &&& 0 <= i
    &&& i + 3 <= label.len()
    &&& same_letter(label[i], 'c', 'C')
    &&& same_letter(label[i + 1], 'p', 'P')
    &&& same_letter(label[i + 2], 'u', 'U')
}

/// The label contains `cpu` as a substring, ignoring ASCII case.
pub open spec fn is_cpu_label(label: Seq<char>) -> bool {
    exists|i: int| cpu_at(label, i)
}

/// The sensor's label names a CPU and the sensor gave a reading.
pub open spec fn gives_cpu_reading(s: Sensor) -> bool {
    is_cpu_label(s.label@) && s.reading is Some
}

/// The reading of the first sensor whose label names a CPU and that gave a
/// reading, or `"0"` when
/// none does.
pub open spec fn temperature_of(sensors: Seq<Sensor>) -> Seq<char>
    decreases sensors.len(),
{
    if sensors.len() == 0 {
        "0"@
    } else if gives_cpu_reading(sensors[0]) {
        sensors[0].reading->Some_0@
    } else {
        temperature_of(sensors.drop_first())
    }
}

/// Whether `label` contains `cpu` in any ASCII case.
pub fn label_names_cpu(label: &str) -> (r: bool)
    ensures
        r == is_cpu_label(label@),
{
    let n = label.unicode_len();
    if n < 3 {
        assert(forall|i: int| !cpu_at(label@, i));
        return false;
    }
    let mut i: usize = 0;
    while i < n - 2
        invariant
            n == label@.len(),
            n >= 3,
            i + 2 <= n,
            forall|j: int| 0 <= j < i ==> !cpu_at(label@, j),
        decreases n - i,
    {
        let c0 = label.get_char(i);
        let c1 = label.get_char(i + 1);
        let c2 = label.get_char(i + 2);
        if (c0 == 'c' || c0 == 'C') && (c1 == 'p' || c1 == 'P') && (c2 == 'u' || c2 == 'U') {
            assert(cpu_at(label@, i as int));
            return true;
        }
        i = i + 1;
    }
    assert(forall|j: int| !cpu_at(label@, j));
    false
}

/// The CPU temperature among `sensors`: the first sensor whose label contains
/// `cpu` in any case and that gave a reading gives that reading; with none,
/// the result is `"0"`.
pub fn cpu_temperature(sensors: &Vec<Sensor>) -> (r: String)
    ensures
        r@ == temperature_of(sensors@),
{
    let n = sensors.len();
    let mut i: usize = 0;
    assert(sensors@.subrange(0, n as int) =~= sensors@);
    while i < n
        invariant
            n == sensors@.len(),
            i <= n,
            temperature_of(sensors@.subrange(i as int, n as int)) == temperature_of(sensors@),
        decreases n - i,
    {
        let rest = Ghost(sensors@.subrange(i as int, n as int));
        assert(rest@[0] == sensors@[i as int]);
        assert(rest@.drop_first() =~= sensors@.subrange(i + 1, n as int));
        if label_names_cpu(sensors[i].label.as_str()) {
            match &sensors[i].reading {
                Some(r) => {
                    return r.clone();
                },
                None => {},
            }
        }
        i = i + 1;
    }
    assert(sensors@.subrange(n as int, n as int) =~= Seq::<Sensor>::empty());
    proof {
        reveal_strlit("0");
    }
    String::from_str("0")
}

/// With no sensor labelled as a CPU that gave a reading, the temperature is
/// `"0"`; with exactly one, it is that sensor's reading.
pub proof fn lemma_temperature_cases(sensors: Seq<Sensor>)
    ensures
        (forall|i: int| 0 <= i < sensors.len() ==> !gives_cpu_reading(#[trigger] sensors[i]))
            ==> temperature_of(sensors) == "0"@,
        forall|k: int|
            0 <= k < sensors.len() && gives_cpu_reading(sensors[k]) && (forall|i: int|
                0 <= i < sensors.len() && i != k ==> !gives_cpu_reading(#[trigger] sensors[i]))
                ==> temperature_of(sensors) == #[trigger] sensors[k].reading->Some_0@,
    decreases sensors.len(),
{
    if sensors.len() > 0 {
        let tail = sensors.drop_first();
        lemma_temperature_cases(tail);
        assert forall|i: int| 0 <= i < tail.len() implies tail[i] == sensors[i + 1] by {}
        assert forall|k: int|
            0 <= k < sensors.len() && gives_cpu_reading(sensors[k]) && (forall|i: int|
                0 <= i < sensors.len() && i != k ==> !gives_cpu_reading(#[trigger] sensors[i]))
            implies temperature_of(sensors) == #[trigger] sensors[k].reading->Some_0@ by {
            if k > 0 {
                assert(!gives_cpu_reading(sensors[0]));
                assert(tail[k - 1] == sensors[k]);
                assert forall|i: int| 0 <= i < tail.len() && i != k - 1 implies !gives_cpu_reading(
                    #[trigger] tail[i]) by {
                    assert(tail[i] == sensors[i + 1]);
                }
            }
        }
        if forall|i: int| 0 <= i < sensors.len() ==> !gives_cpu_reading(#[trigger] sensors[i]) {
            assert(!gives_cpu_reading(sensors[0]));
            assert forall|i: int| 0 <= i < tail.len() implies !gives_cpu_reading(
                #[trigger] tail[i]) by {
                assert(tail[i] == sensors[i + 1]);
            }
        }
    }
}

} // verus!
