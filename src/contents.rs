//! Packages of a project and the roll-up of the whole application.

use vstd::prelude::*;

verus! {

/// A Java package: its name, where it lives, and the names of its member types.
#[derive(Clone)]
pub struct Package {
    pub name: String,
    pub package_path: String,
    pub members: Vec<String>,
}

impl Package {
    /// Records one more member type of this package.
    pub fn add_class(&mut self, class_name: String)
        ensures
            final(self).name == old(self).name,
            final(self).package_path == old(self).package_path,
            final(self).members@ == old(self).members@.push(class_name),
    {
        self.members.push(class_name);
    }
}

/// All the application's data: counts of what was parsed and its packages.
pub struct ApplicationDoc {
    pub file_num: i32,
    pub class_num: i32,
    pub interface_num: i32,
    pub enum_num: i32,
    pub packages: Vec<Package>,
}

/// Whether some package of `ps` is named `name`.
pub open spec fn has_package(ps: Seq<Package>, name: Seq<char>) -> bool {
    exists|i: int| 0 <= i < ps.len() && ps[i].name@ == name
}

impl ApplicationDoc {
    pub fn new() -> (r: ApplicationDoc)
        ensures
            r.file_num == 0,
            r.class_num == 0,
            r.interface_num == 0,
            r.enum_num == 0,
            r.packages@.len() == 0,
    {
        ApplicationDoc {
            file_num: 0,
            enum_num: 0,
            class_num: 0,
            interface_num: 0,
            packages: Vec::new(),
        }
    }

    /// Adds `class` to every package named `package`; where there is none, adds a
    /// new package with that name, the path `dir`, and `class` as its one member.
    pub fn add_package_class(&mut self, package: String, dir: String, class: String)
        ensures
            final(self).file_num == old(self).file_num,
            final(self).class_num == old(self).class_num,
            final(self).interface_num == old(self).interface_num,
            final(self).enum_num == old(self).enum_num,
            has_package(old(self).packages@, package@) ==> {
                &&& final(self).packages@.len() == old(self).packages@.len()
                &&& forall|i: int|
                    0 <= i < old(self).packages@.len() ==> {
                        let p = old(self).packages@[i];
                        let q = #[trigger] final(self).packages@[i];
                        &&& q.name == p.name
                        &&& q.package_path == p.package_path
                        &&& q.members@ == if p.name@ == package@ {
                            p.members@.push(class)
                        } else {
                            p.members@
                        }
                    }
            },
            !has_package(old(self).packages@, package@) ==> {
                let q = final(self).packages@.last();
                &&& final(self).packages@.len() == old(self).packages@.len() + 1
                &&& final(self).packages@.drop_last() == old(self).packages@
                &&& q.name == package
                &&& q.package_path == dir
                &&& q.members@ == seq![class]
            },
    {
        let mut found = false;
        let n = self.packages.len();
        let mut i: usize = 0;
        while i < n
            invariant
                n == old(self).packages@.len(),
                self.packages@.len() == n,
                0 <= i <= n,
                self.file_num == old(self).file_num,
                self.class_num == old(self).class_num,
                self.interface_num == old(self).interface_num,
                self.enum_num == old(self).enum_num,
                found == exists|j: int| 0 <= j < i && old(self).packages@[j].name@ == package@,
                forall|j: int|
                    i <= j < n ==> #[trigger] self.packages@[j] == old(self).packages@[j],
                forall|j: int|
                    0 <= j < i && old(self).packages@[j].name@ != package@
                        ==> #[trigger] self.packages@[j] == old(self).packages@[j],
                forall|j: int|
                    0 <= j < i ==> {
                        let p = old(self).packages@[j];
                        let q = #[trigger] self.packages@[j];
                        &&& q.name == p.name
                        &&& q.package_path == p.package_path
                        &&& q.members@ == if p.name@ == package@ {
                            p.members@.push(class)
                        } else {
                            p.members@
                        }
                    },
            decreases n - i,
        {
            if package == self.packages[i].name {
                self.packages[i].add_class(class.clone());
                found = true;
            }
            i = i + 1;
        }
        if !found {
            assert(self.packages@ =~= old(self).packages@);
            let mut members: Vec<String> = Vec::new();
            members.push(class);
            self.packages.push(Package { name: package, package_path: dir, members });
        }
    }
}

} // verus!
