use vstd::prelude::*;

use crate::error::Error;

verus! {

/// The characters of each string of `v`.
pub open spec fn strings_view(v: Seq<String>) -> Seq<Seq<char>> {
    v.map_values(|s: String| s@)
}

/// Whether two lists of strings hold the same text, item by item.
pub fn same_strings(a: &Vec<String>, b: &Vec<String>) -> (r: bool)
    ensures
        r == (strings_view(a@) == strings_view(b@)),
{
    if a.len() != b.len() {
        return false;
    }
    let mut i: usize = 0;
    while i < a.len()
        invariant
            a@.len() == b@.len(),
            i <= a@.len(),
            forall|k: int| 0 <= k < i ==> a@[k]@ == b@[k]@,
        decreases a.len() - i,
    {
        if a[i] != b[i] {
            assert(strings_view(a@)[i as int] != strings_view(b@)[i as int]);
            return false;
        }
        i = i + 1;
    }
    assert(strings_view(a@) =~= strings_view(b@));
    true
}

/// A named gauge with a fixed label schema. Each series is one combination of
/// label values, and every series present stands at 1.
pub struct MetricFamily {
    name: String,
    help: String,
    label_names: Vec<String>,
    series: Vec<Vec<String>>,
}

impl MetricFamily {
    /// The name of the gauge.
    pub closed spec fn name_spec(&self) -> Seq<char> {
        self.name@
    }

    /// Its help text.
    pub closed spec fn help_spec(&self) -> Seq<char> {
        self.help@
    }

    /// The label names, in schema order.
    pub closed spec fn names(&self) -> Seq<Seq<char>> {
        strings_view(self.label_names@)
    }

    /// The label values of each series, in order of first appearance.
    pub closed spec fn rows(&self) -> Seq<Seq<Seq<char>>> {
        self.series@.map_values(|r: Vec<String>| strings_view(r@))
    }

    /// No combination appears twice and each fits the schema.
    pub closed spec fn wf(&self) -> bool {
        &&& self.rows().no_duplicates()
        &&& forall|i: int| 0 <= i < self.rows().len() ==> #[trigger] self.rows()[i].len() == self.names().len()
    }

    /// What `set` leaves of `rows` when a series with `values` is set.
    pub open spec fn rows_after_set(rows: Seq<Seq<Seq<char>>>, values: Seq<Seq<char>>) -> Seq<Seq<Seq<char>>> {
        if rows.contains(values) {
            rows
        } else {
            rows.push(values)
        }
    }

    /// An empty family.
    pub fn new(name: String, help: String, label_names: Vec<String>) -> (r: MetricFamily)
        ensures
            r.wf(),
            r.name_spec() == name@,
            r.help_spec() == help@,
            r.names() == strings_view(label_names@),
            r.rows().len() == 0,
    {
        let r = MetricFamily { name, help, label_names, series: Vec::new() };
        assert(r.rows() =~= Seq::<Seq<Seq<char>>>::empty());
        r
    }

    pub fn name(&self) -> (r: &String)
        ensures
            r@ == self.name_spec(),
    {
        &self.name
    }

    pub fn help(&self) -> (r: &String)
        ensures
            r@ == self.help_spec(),
    {
        &self.help
    }

    pub fn label_names(&self) -> (r: &Vec<String>)
        ensures
            strings_view(r@) == self.names(),
    {
        &self.label_names
    }

    /// The label values of each series.
    pub fn series(&self) -> (r: &Vec<Vec<String>>)
        ensures
            r@.map_values(|v: Vec<String>| strings_view(v@)) == self.rows(),
    {
        &self.series
    }

    /// Where a series with exactly `values` stands, if there is one.
    pub fn position(&self, values: &Vec<String>) -> (r: Option<usize>)
        ensures
            match r {
                Some(i) => i < self.rows().len() && self.rows()[i as int] == strings_view(values@),
                None => !self.rows().contains(strings_view(values@)),
            },
    {
        let mut i: usize = 0;
        while i < self.series.len()
            invariant
                i <= self.series@.len(),
                forall|k: int| 0 <= k < i ==> self.rows()[k] != strings_view(values@),
            decreases self.series.len() - i,
        {
            if same_strings(&self.series[i], values) {
                return Some(i);
            }
            i = i + 1;
        }
        None
    }

    /// The value of the series with `values`: 1 when it was set, else none.
    pub fn value(&self, values: &Vec<String>) -> (r: Option<i64>)
        ensures
            r == (if self.rows().contains(strings_view(values@)) { Some(1i64) } else { None }),
    {
        match self.position(values) {
            Some(_) => Some(1),
            None => None,
        }
    }

    /// Sets the series with `values` to 1, creating it when it is new. Label
    /// values that do not match the schema in number are refused.
    pub fn set(&mut self, values: &Vec<String>) -> (r: Result<(), Error>)
        requires
            old(self).wf(),
        ensures
            final(self).wf(),
            final(self).name_spec() == old(self).name_spec(),
            final(self).help_spec() == old(self).help_spec(),
            final(self).names() == old(self).names(),
            values@.len() == old(self).names().len() ==> r is Ok && final(self).rows()
                == Self::rows_after_set(old(self).rows(), strings_view(values@)),
            values@.len() != old(self).names().len() ==> r is Err && r->Err_0 is MetricRegistrationError
                && final(self).rows() == old(self).rows(),
    {
        if values.len() != self.label_names.len() {
            return Err(Error::MetricRegistrationError(String::from_str("label values do not match the label names")));
        }
        match self.position(values) {
            Some(_) => Ok(()),
            None => {
                let ghost before = self.rows();
                self.series.push(values.clone());
                proof {
                    assert(strings_view(self.series@.last()@) =~= strings_view(values@));
                    assert(self.rows() =~= before.push(strings_view(values@)));
                    assert(self.rows().no_duplicates());
                }
                Ok(())
            }
        }
    }
}

} // verus!
