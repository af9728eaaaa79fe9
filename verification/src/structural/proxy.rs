//! Proxy: a stand-in for an image that loads the real one only when it
//! is first displayed.

use vstd::prelude::*;

verus! {

/// An image that can display itself.
pub trait Image {
    /// The line displaying produces.
    spec fn spec_display(&self) -> Seq<char>;
}

/// The line loading a file from disk produces.
pub open spec fn load_line(filename: Seq<char>) -> Seq<char> {
    "Загрузка изображения '"@ + filename + "' из диска"@
}

/// The line displaying a file produces.
pub open spec fn display_line(filename: Seq<char>) -> Seq<char> {
    "Отображение изображения '"@ + filename + "'"@
}

/// The real image, loaded from disk when constructed.
pub struct RealImage {
    filename: String,
}

impl RealImage {
    /// The file this image came from, for contracts.
    pub closed spec fn spec_filename(self) -> Seq<char> {
        self.filename@
    }

    /// Loads the image, returning it with the loading line.
    pub fn new(filename: &str) -> (r: (RealImage, String))
        ensures
            r.0.spec_filename() == filename@,
            r.1@ == load_line(filename@),
    {
        let image = RealImage { filename: filename.to_owned() };
        let line = image.load_from_disk();
        (image, line)
    }

    fn load_from_disk(&self) -> (r: String)
        ensures
            r@ == load_line(self.filename@),
    {
        let mut s = "Загрузка изображения '".to_owned();
        s.append(self.filename.as_str());
        s.append("' из диска");
        s
    }

    /// Displays the image.
    pub fn display(&self) -> (r: String)
        ensures
            r@ == display_line(self.spec_filename()),
    {
        let mut s = "Отображение изображения '".to_owned();
        s.append(self.filename.as_str());
        s.append("'");
        s
    }
}

impl Image for RealImage {
    open spec fn spec_display(&self) -> Seq<char> {
        display_line(self.spec_filename())
    }
}

/// The proxy: remembers the file name, loads the real image lazily.
pub struct ProxyImage {
    filename: String,
    real_image: Option<RealImage>,
}

impl ProxyImage {
    /// The file this proxy stands for, for contracts.
    pub closed spec fn spec_filename(self) -> Seq<char> {
        self.filename@
    }

    /// Whether the real image has been loaded yet.
    pub closed spec fn loaded(self) -> bool {
        self.real_image is Some
    }

    /// The loaded image, if any, is for the proxy's own file.
    pub closed spec fn wf(self) -> bool {
        self.real_image matches Some(img) ==> img.spec_filename() == self.filename@
    }

    /// A proxy that has loaded nothing yet.
    pub fn new(filename: &str) -> (p: ProxyImage)
        ensures
            p.spec_filename() == filename@,
            !p.loaded(),
            p.wf(),
    {
        ProxyImage { filename: filename.to_owned(), real_image: None }
    }

    /// Displays the image, loading it first if this is the first call:
    /// the loading line appears at most once, the display line always.
    pub fn display(&mut self) -> (lines: Vec<String>)
        requires
            old(self).wf(),
        ensures
            final(self).spec_filename() == old(self).spec_filename(),
            final(self).loaded(),
            final(self).wf(),
            old(self).loaded() ==> lines@.map_values(|s: String| s@) == seq![
                display_line(old(self).spec_filename()),
            ],
            !old(self).loaded() ==> lines@.map_values(|s: String| s@) == seq![
                load_line(old(self).spec_filename()),
                display_line(old(self).spec_filename()),
            ],
    {
        let mut lines: Vec<String> = Vec::new();
        if self.real_image.is_none() {
            let (image, line) = RealImage::new(self.filename.as_str());
            self.real_image = Some(image);
            lines.push(line);
        }
        match &self.real_image {
            Some(image) => {
                lines.push(image.display());
            },
            None => {},
        }
        proof {
            if old(self).loaded() {
                assert(lines@.map_values(|s: String| s@) =~= seq![
                    display_line(old(self).spec_filename()),
                ]);
            } else {
                assert(lines@.map_values(|s: String| s@) =~= seq![
                    load_line(old(self).spec_filename()),
                    display_line(old(self).spec_filename()),
                ]);
            }
        }
        lines
    }
}

} // verus!
