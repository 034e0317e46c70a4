//! The pipeline orchestrator: the slot mapping from roles to images, the
//! load operation that fills it, and the transform runner that derives the
//! processed slot and its statistics. The orchestrator owns the mapping
//! exclusively; callers receive read-only references. One pipeline instance
//! serves one operation at a time: an operation ends before the next starts,
//! and every failure leaves the mapping in the stated, fully consistent
//! shape.

use vstd::prelude::*;
use crate::canonical::CanonicalImage;
use crate::canonical::img_eq;
use crate::canonical::luma_seq;
use crate::decode::decode_canonical;
use crate::decode::decode_err_text;
use crate::decode::decode_height;
use crate::decode::decode_ok;
use crate::decode::decode_pixels;
use crate::decode::decode_width;
use crate::error::ErrorKind;
use crate::error::ImageProcessError;
use crate::panel::ImagePanelData;
use crate::transform::ProcessType;
use crate::transform::process_image;
use crate::transform::transform_rel;

verus! {

broadcast use vstd::string::to_string_from_display_ensures_for_str;

/// The closed set of roles an image slot can play.
#[derive(Debug, Clone, Copy, PartialEq, Eq, Hash)]
pub enum ImageType {
    /// The loaded image, displayed in true color.
    Original,
    /// The loaded image kept as transform input, displayed as grayscale.
    Grayscale,
    /// The output of the last successful transform run.
    Processed,
}

/// The slot mapping: at most one image per role.
#[derive(Debug)]
pub struct ImageSlots {
    original: Option<ImagePanelData>,
    grayscale: Option<ImagePanelData>,
    processed: Option<ImagePanelData>,
}

impl ImageSlots {
    /// The image held by the given role, if any.
    pub closed spec fn spec_get(&self, image_type: ImageType) -> Option<ImagePanelData> {
        match image_type {
            ImageType::Original => self.original,
            ImageType::Grayscale => self.grayscale,
            ImageType::Processed => self.processed,
        }
    }

    /// No role holds an image.
    pub open spec fn slots_empty(&self) -> bool {
        &&& self.spec_get(ImageType::Original) is None
        &&& self.spec_get(ImageType::Grayscale) is None
        &&& self.spec_get(ImageType::Processed) is None
    }

    /// Every held image is well formed.
    pub open spec fn wf(&self) -> bool {
        &&& (self.spec_get(ImageType::Original) matches Some(d) ==> d.wf())
        &&& (self.spec_get(ImageType::Grayscale) matches Some(d) ==> d.wf())
        &&& (self.spec_get(ImageType::Processed) matches Some(d) ==> d.wf())
    }

    /// An empty mapping.
    pub fn new() -> (slots: ImageSlots)
        ensures
            slots.slots_empty(),
            slots.wf(),
    {
        ImageSlots { original: None, grayscale: None, processed: None }
    }

    /// Read the image held by the given role.
    pub fn get(&self, image_type: ImageType) -> (r: Option<&ImagePanelData>)
        ensures
            match r {
                Some(d) => self.spec_get(image_type) == Some(*d),
                None => self.spec_get(image_type) is None,
            },
    {
        match image_type {
            ImageType::Original => self.original.as_ref(),
            ImageType::Grayscale => self.grayscale.as_ref(),
            ImageType::Processed => self.processed.as_ref(),
        }
    }

    /// Whether the given role holds an image.
    pub fn contains_key(&self, image_type: ImageType) -> (b: bool)
        ensures
            b == (self.spec_get(image_type) is Some),
    {
        match image_type {
            ImageType::Original => self.original.is_some(),
            ImageType::Grayscale => self.grayscale.is_some(),
            ImageType::Processed => self.processed.is_some(),
        }
    }

    /// Drop every held image.
    pub fn clear(&mut self)
        ensures
            final (self).slots_empty(),
            final (self).wf(),
    {
        self.original = None;
        self.grayscale = None;
        self.processed = None;
    }
}

/// Whether loading the given file bytes is owed success: the file exists,
/// its bytes decode, and the decoded image has pixels.
pub open spec fn load_succeeds(file: Option<&[u8]>) -> bool {
    &&& file matches Some(b)
    &&& decode_ok(b@)
    &&& decode_width(b@) > 0
    &&& decode_height(b@) > 0
}

/// Load an image from the bytes of its file. `file` is `None` when the path
/// did not resolve to an existing file. Loading succeeds exactly when the
/// bytes decode to an image with pixels; the whole mapping is then replaced,
/// the decoded image filling the Original and Grayscale roles with Processed
/// dropped. On any failure the mapping is left empty.
pub fn image_load(images: &mut ImageSlots, file: Option<&[u8]>) -> (r: Result<
    String,
    ImageProcessError,
>)
    ensures
        final (images).wf(),
        r is Ok <==> load_succeeds(file),
        match r {
            Ok(msg) => {
                &&& msg@ == "OK"@
                &&& final (images).spec_get(ImageType::Processed) is None
                &&& final (images).spec_get(ImageType::Original) matches Some(d) && d.wf()
                    && (final (images).spec_get(ImageType::Grayscale) matches Some(g) && g.wf()
                    && img_eq(g.image, d.image)) && (file matches Some(b)
                    && d.image.spec_width() == decode_width(b@) && d.image.spec_height()
                    == decode_height(b@) && d.image.spec_pixels() == decode_pixels(b@))
            },
            Err(e) => {
                &&& final (images).slots_empty()
                &&& (e.kind == ErrorKind::NotFound <==> file is None)
                &&& (file is Some ==> e.kind == ErrorKind::DecodeError)
                &&& (file matches Some(b) ==> (!decode_ok(b@) ==> e.message@ == decode_err_text(
                    b@,
                )))
            },
        },
{
    let bytes: &[u8] = match file {
        Option::None => {
            images.clear();
            return Err(ImageProcessError::not_found());
        },
        Option::Some(b) => b,
    };
    let img: CanonicalImage = match decode_canonical(bytes) {
        Result::Err(msg) => {
            images.clear();
            return Err(ImageProcessError::decode_error(msg));
        },
        Result::Ok(i) => i,
    };
    images.original = Some(ImagePanelData { image: img.clone() });
    images.grayscale = Some(ImagePanelData { image: img });
    images.processed = None;
    Ok("OK".to_string())
}

/// The statistics of one successful transform run: the processed image's
/// dimensions, its luminance extremes, and which transform produced it.
#[derive(Debug, Clone, Copy, PartialEq, Eq)]
pub struct ProcessStats {
    pub width: usize,
    pub height: usize,
    pub max_value: usize,
    pub min_value: usize,
    pub process_type: ProcessType,
}

/// The pipeline orchestrator: the slot mapping and the statistics of the
/// last successful run.
#[derive(Debug)]
pub struct Pipeline {
    slots: ImageSlots,
    stats: Option<ProcessStats>,
}

impl Pipeline {
    /// The slot mapping.
    pub closed spec fn spec_slots(&self) -> ImageSlots {
        self.slots
    }

    /// The statistics of the last successful run, if one stands.
    pub closed spec fn spec_stats(&self) -> Option<ProcessStats> {
        self.stats
    }

    /// Every held image is well formed.
    pub open spec fn wf(&self) -> bool {
        self.spec_slots().wf()
    }

    /// Whether an image is loaded and ready for a transform.
    pub open spec fn has_loaded(&self) -> bool {
        self.spec_slots().spec_get(ImageType::Grayscale) is Some
    }

    /// A pipeline with nothing loaded.
    pub fn new() -> (p: Pipeline)
        ensures
            p.wf(),
            p.spec_slots().slots_empty(),
            p.spec_stats() is None,
    {
        Pipeline { slots: ImageSlots::new(), stats: None }
    }

    /// Read access to the slot mapping.
    pub fn slots(&self) -> (r: &ImageSlots)
        ensures
            *r == self.spec_slots(),
    {
        &self.slots
    }

    /// The statistics of the last successful run, if one stands.
    pub fn stats(&self) -> (r: Option<ProcessStats>)
        ensures
            r == self.spec_stats(),
    {
        self.stats
    }

    /// Load an image, replacing the whole mapping; loading succeeds exactly
    /// when the bytes decode to an image with pixels, and a failed load
    /// leaves the pipeline with nothing loaded. Either way the previous
    /// statistics are dropped.
    pub fn load(&mut self, file: Option<&[u8]>) -> (r: Result<String, ImageProcessError>)
        ensures
            final (self).wf(),
            final (self).spec_stats() is None,
            r is Ok <==> load_succeeds(file),
            match r {
                Ok(msg) => {
                    &&& msg@ == "OK"@
                    &&& final (self).spec_slots().spec_get(ImageType::Processed) is None
                    &&& final (self).spec_slots().spec_get(ImageType::Original) matches Some(d)
                        && d.wf() && (final (self).spec_slots().spec_get(ImageType::Grayscale)
                        matches Some(g) && g.wf() && img_eq(g.image, d.image)) && (file
                        matches Some(b) && d.image.spec_width() == decode_width(b@)
                        && d.image.spec_height() == decode_height(b@) && d.image.spec_pixels()
                        == decode_pixels(b@))
                },
                Err(e) => {
                    &&& final (self).spec_slots().slots_empty()
                    &&& (e.kind == ErrorKind::NotFound <==> file is None)
                    &&& (file is Some ==> e.kind == ErrorKind::DecodeError)
                    &&& (file matches Some(b) ==> (!decode_ok(b@) ==> e.message@
                        == decode_err_text(b@)))
                },
            },
    {
        self.stats = None;
        image_load(&mut self.slots, file)
    }

    /// Run the selected transform against the loaded image. With nothing
    /// loaded the run is rejected; otherwise the processed slot and the
    /// statistics are replaced with the transform's exact result. The
    /// Original and Grayscale slots are never touched.
    pub fn run_transform(&mut self, process_type: ProcessType) -> (r: Result<
        ProcessStats,
        ImageProcessError,
    >)
        requires
            old(self).wf(),
        ensures
            final (self).wf(),
            final (self).spec_slots().spec_get(ImageType::Original) == old(self).spec_slots()
                .spec_get(ImageType::Original),
            final (self).spec_slots().spec_get(ImageType::Grayscale) == old(self).spec_slots()
                .spec_get(ImageType::Grayscale),
            r is Err <==> !old(self).has_loaded(),
            r matches Err(e) ==> e.kind == ErrorKind::NoImageLoaded && final (self).spec_slots()
                .spec_get(ImageType::Processed) is None && final (self).spec_stats() is None,
            r matches Ok(st) ==> final (self).spec_slots().spec_get(ImageType::Processed)
                matches Some(pd) && {
                let source = old(self).spec_slots().spec_get(ImageType::Grayscale)->0.image;
                &&& pd.wf()
                &&& transform_rel(process_type, source, pd.image)
                &&& final (self).spec_stats() == Some(st)
                &&& st.process_type == process_type
                &&& st.width as int == pd.image.spec_width() as int
                &&& st.height as int == pd.image.spec_height() as int
                &&& exists|i: int|
                    0 <= i < pd.image.area() && luma_seq(pd.image.spec_pixels(), pd.image.area())[i]
                        as int == st.max_value as int
                &&& forall|i: int|
                    0 <= i < pd.image.area() ==> luma_seq(
                        pd.image.spec_pixels(),
                        pd.image.area(),
                    )[i] <= st.max_value
                &&& exists|i: int|
                    0 <= i < pd.image.area() && luma_seq(pd.image.spec_pixels(), pd.image.area())[i]
                        as int == st.min_value as int
                &&& forall|i: int|
                    0 <= i < pd.image.area() ==> st.min_value <= luma_seq(
                        pd.image.spec_pixels(),
                        pd.image.area(),
                    )[i]
            },
    {
        let data: ImagePanelData = match self.slots.get(ImageType::Grayscale) {
            Option::Some(d) => d.clone(),
            Option::None => {
                self.slots.processed = None;
                self.stats = None;
                return Err(ImageProcessError::no_image_loaded());
            },
        };
        match process_image(data, process_type) {
            Result::Ok(pd) => {
                let width: usize = pd.get_image_width();
                let height: usize = pd.get_image_height();
                let max_value: usize = pd.get_max_image_value();
                let min_value: usize = pd.get_min_image_value();
                let st = ProcessStats { width, height, max_value, min_value, process_type };
                self.slots.processed = Some(pd);
                self.stats = Some(st);
                Ok(st)
            },
            Result::Err(e) => {
                self.slots.processed = None;
                self.stats = None;
                Err(e)
            },
        }
    }
}

} // verus!
