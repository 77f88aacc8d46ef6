//! The icon of the bundled `sahaa` agent, a PNG image as a `data:` URL.

use vstd::prelude::*;
use vstd::string::*;

verus! {

/// Part 0 of the icon's `data:` URL, in order.
pub const ICON_PART_0: &'static str = "data:image/png;base64,iVBORw0KGgoAAAANSUhEUgAAAQAAAAEACAYAAABccqhmAAAACXBIWXMAAAsTAAALEwEAmpwYAA\
AAAXNSR0IArs4c6QAAAARnQU1BAACxjwv8YQUAAGHlSURBVHgB7V0HWBRX1z50kCKKCqIidsXesaMmatTEJJpiejG9mp4/vX\
3pmt5NYrrGGFNssfdeUCygICgWRATpnf+cuzvDLFLOzM42mPd5Lju7zMLuzL3nnvoeAAMGDBgwYMCAAQMGDDQguIEBA06Aio\
qKYHwIwuFe5VclONLd3NyKwYDuMASAAbsAF7gXPnTF0RvHIBxNcfTD4YcjBEdgHX8i0zxO4UjGkYRjMx2jcIgHA5qguwAwS/\
IHcEwB0832xnEMxzocH+LN2gsG6j1wHrTGh/E4euIYhaMHDk+wDXJx7MSxEccaHNtwnuWBgTqhqwDAmz4BH77HEVrLaa/geB\
1vUCkYqDfAe087+WAcE3FMw9GutvPPZhdAXlE5HEzNhLwSNygsLoPzuYWQW1gKeAjuODO9PD0g0McDgv29oRE+hgb5QmhjH2\
gV7Av+vnXKkn9x/INjJc61JPx8L+IxzU/SNvzBpHEEwMUmh4RCHNn0UXGcx5GOIwvHCfNIwXEU/3YKuDB0EwB4gW/Fhzk4PO\
h5cnoebEs8D4Ul5dCuhT+M7NJMeXoyjtF48ZLBgMsC77kPPgzFcSOOq3E0qXpOUUkJpOBc2J2SBbuSsyDhdDakZhZDWrZ1Jn\
1LFALtmjeCqPAg6BcZDB1CA6B7q6CaTidTIRxHJOgPEgr7cewCk/axBud1DrgIdBEAOBEi8SEWTE4ceGnhQZizLtninC4tA+\
G7Gf0holkj6SWSrk/gxfoaDLgUFGbeDKhmUR0+cQ42Hs2ETUcyYVtSFmQX2EfZa9PUDwa2bwIjuzaH6A5NoHVTea5BeUk2lG\
cdxg9fjk+KoaIkDyrKCgDKUBBVlOJ3KhfnubmhQuDhC26e/uDmjdPZDfczfM3dtwW4+6NV416n5kGmx1Icv+Pcng9ODr0EwH\
f4cBsdP/Xbfvhly4lqz/PxcodHx3eChy7toHz5VbxQL4EBpwfeZ3LePQWm3d5i7mxPPAdLYs/Awh2pcD6/HJwBg9s3hWsGt4\
KYbs0hrLEvlOelQunZrVB05Acoz4wDLXBz9wKPJujO8GwEHiG9waNxF3zeE9wDI6s7PRnHezi/PwUnhdUCACcFOfnIMxuy5e\
h5uObjrXW+Z9rAVvDGtO5KO+4nHLfghaoAA04HvMcx+PAcjkuUr5/KyITftp+Dv3Ycg8QM53XpuKND4dKoFjClfzhc2qMF+H\
l7oDA4DqWp/0FR8kKTZmDt/wiIAM+Q/uDZehx4ho1EDcJP+etkHFNxfu8GJ4MeAiAGTLYPPDs/Dn7cdJz1PlLXfn9osFJNo7\
9xNV6kLDDgFMB7Sx78j3DEKF8nQf/hssOwFX08peXu4EpoFuANY1AY3DEqEnq0NvkMyrOPQuHhr6H0zHqoKEgDa+Hm2xy8Wl\
0CPt3uM5kNlXgR5/dr4ETQQwCMwYdVdEy7P00OLkgI/HL/YOHMMWMtjqsMIeBY4D0lZ95bOO5Wvr56bwJ8tvYMbD2WC/UBbd\
EfteiRIdA8yEc8ryjJgZLU5VB06Esoz0kEa0F+BJ+ud4NP1APCj2DGSzi/XwUngR7iu0Q6CG/iB2pw4nwBTPlgM8SlXpBeis\
Hh9I6T+gxc/I+AKclGXvybD5+ES15fCrd8d7TeLH7CpD4t5cVPcPMKBO920yBw4goIuGQhqvIxYA0qSvOgMG425K6+HiqK5T\
3tFbzGd4GTQA8NgDzCp3H4frchGV5YcBDUorGfFyxAc6BbZRjnK5SS94ABuwHvYzQ+zMIxRHpte2I6vLvkKGp1mVDfEIm7/6\
pnR4KPZ+17YHluChQe+AhKkv8Ea+AeHIVCZQEGFXzpaRmOvjjH94ODoVcUgOz3GEriGPXGeozxFoJaNAv0hkWPDhU3xowX8A\
K9DgZsDrx/z+ADJcoIFS67oBje/WsXfLel/i18ghcu+nX/NxIiQhqx31N2fj8U7HkNys7tBK3waj0eGg37XHq6B8cgRyfE6S\
UAYsDsCDx0Kgeu/3QbZOSqT/Qgn8CCh6OhlcmUoIjAOLxAK8GATWDO3yCTa6D02ryNB+GVf1PtFruXENzIC5r6e+GjtwgX42\
eDAsoOzCuBM1mFUFKuX4DopSu7wV2j24EWFKcsgqL9s0RIUQt8+z4HPp3vlJ6+jPP7FXAg9MwE/B4fKBsQUtG2J4cg2fhqQZ\
7ZpU8MBzfTJ0vGMRwv0kkwoCvwfk3Ch7lgSo2F05m58Mr87fDvQfXaGxceGI4jDa9/ZDD0aNMYWgT5Qp+IxuCLC75ZoE+N79\
ty5BzcP3cPpOeUgLWYiiHoD2/qDdagoigLihLmQNFB9eF9N68gCBj/rxQdIMdAe5zfDlO19BQAlAK8HUwVXlCOEvyJX/fD/G\
3qJeW9Y9rB81O6SU+X4gWaCAZ0A94r2nVelJ6vjE2Ex+cdgYw8/RN4mvp7w/XRbWBYlxDog4u+cSMv/pvLS+H1vw7DV+tScD\
5ZP1VNoedoDD2rc1bXhLKsQ5C38W6oyFO3P3m2HA3+I+dIT1/B+f0yOAh6FwORh+MdHA9Jr32w/Ci8tyQB1OKHewaIeK0ZlE\
SxEAxYBbw/VADzA44rxQu4wN7+OxY+XmN97FsJ8ufcNDQCxvUIhV64w2tB6rkcmDFnB8Sd0k8j+enegSIrUE+U552Cgu2PQ+\
nZbareFzhhGbg37kyHFDdv6Si+A5vwAeBEuwEfPgZTzbeoC6D6ADUIxfDM6mdH4Y4hsgVJRergSFXJ1WG295fgEKrVmUxcYN\
/sgL2p+iwwT1Tvh3RsCg+P7yQercGK3QfhkXkpkF2on91/24i28Pq07mATlJdAwe7XoDjxJ/ZbfLrcBb59npWeTsC5vRwcAJ\
sRgpgnHDkG6RH+2XMa7vt+j6q/MWNUO3j5atkUoJzqJ8GAauC9aA+mZK1Ien74+Em4/duDcCLTeps6yM8TpkdHwPVDWkOn0A\
CwCriQ3l98EGav1NflQ6r/XzOHCJ+DLZG/41koSZrHOpd8AUFXy9QYxJPxKDgANmUEMguB1WCuDac0YUoX5oIcgRQaJKcRmE\
gfOuGFOgMG2DCn8/6HI4yer95zEO77KQHySr3BGtC9uXV4W3hyYhdJS7MK+QUF8ND3m2H54SLQG1/e0Rcm9W4JNkdFGeQsu0\
ykFnPgP/o38GxB9VVwAOd1D3AAbJrIba73jwETIxDcPCwCHh3fkf1+9CPCW//IhRq0vTwNBtjAxT8cH9aDefF/t2of3PJ9st\
WLfwza0RufjxEqtR6LP/VcFkx6f6NNFv+1g1rbZ/ET3DzArz8/y7csc5902N3sn7E7bF7JgUKAqoOoXkBUCT0xsTM69/iOGK\
ot2JqYIT190Jx5aKAO4HWijD5ixBHXa/bSBHjhb22xawmUn/HzvYPgB3SmtW3GT6KpDcfPZsI1n+yGI+nWmyNVQYU/j13WCe\
wJzxbRGOILZ51bfsGCytC+H9QMu5RymTWBK3CIONOsG3oJ25GLD5fJKhW96QkwUCtw8VMolkgpxOKfhYv//WU8tbQmzIiJhB\
VPj4BR3ZqBXkg4cRKu+mAz+iJsk3tAyT56hfzUwDN0JOu8MksB0BkcALvVcqIQIMagx+mYkj5encr3yG5IyIA9yXIxxf04wQ\
024xpgdvgtxiHib7OWxMMsKxY/xe0pfPbyVVGqhHZd2JOQAFM+2gNpeba5leT4uztGW7aftSCCEA4ooUgBntqgM+xazI1C4A\
MwsQMLUpDoDvxw0Yo4OVZNpapjwMBFMDtdN4HZ5n9/cRzMWq69rLV3m8aw5tkRusfODycnw/Sv4iGn2HbTbyaq/l6eDuIq8P\
RhnVZRapEpGwQOgCOuEFX5iUTzpyfztZ7vNx6HwlI5U+0RMGABXPzk6aKwq1j8nyw/BLP/45GzVId7xrTHCIz+obOUM+lww5\
f7ILfEA2wFKvIh55+j4ObNc1MR/4CjYXcBYG7i8CUdD2zflJ00kl1QAruT5DygEY";

/// Part 1 of the icon's `data:` URL, in order.
pub const ICON_PART_1: &'static str = "Yz8CKQzR9JB/PWx8JbS46BVjx/ZVd4YUpX3XfQ1PP5cP0X++Fsvq3aA5hgb8dfVbh5Mh2kREZaLjs/R5g1OLvCUXxOz4OJdx\
1mTuDfrAU75AQRWvwDwYAATpy3wdSEBQ4mHoEnF2rz9hN33he39YF7R7cHvZGZnQXXUoGYBoff0HB+jw+y/cm8dCTc/FrwTq\
woh/LsI9IzMmu34b183txFyS5wiAAwU34RkzAM7RQCrZlMQsv2W+SsjwcDtPiJpZeG2GFv+y5eU+EMVeSRs29yXxv4onCiP/\
rjbjh+Xv3ifxx381ZhfHX+AUvGaYeAqMC4yN94L5SmbZKekuQgzsAEvK92KYBzJKOjTP11/ZA2rDeQGXDwZLb0tME7AnGS0K\
4v6skL8jPFDnsqR/0tJVX/R4zvV2neohtmLT0MqxLUL/43rukOj45pAesP8JrvtAjygSn9HOJMt4C7Xyi4+fCuJfEK5K29GQ\
q2PKrkGIjEsRjv79c4rCusqAMOEwCoBawFU70/jI1iqkyIzUdk0tGuDdkPgN89Ah8W4RBeutd/36ZphyV8fFNvqwt4asKO/f\
swEpGs5i1CIH1yax+Rarzh0ElIK+I5yGO6NodAX9v6F7jwDB2i6vzi439D7vLJUHTwE1PzEhOo8couvNfDwEZwNKfzb/SjZ5\
sgIb052HdCjp2S3WCzC+MCIFUxkg7I4z93t7Za/jev7YFqv21SZYlk5OGFGareY/JD9IUrzTv5n/v5Qo1SzZ0F3h2mg1pUlG\
RD4f5ZkLM4Bsqz5OrZSBwbUQjYpHmOowWAXALJTQ+OO5GtfGqj+k7nBk6GmfhwCx3HY0z9g2Xq+RYI5C235aL5cPFe1axQr0\
+NgvE9zb1l0UO+I5EnQCj01zfSeRRCkRIcyK97UYJMgRzSBg58qHz5Zbzv3+DQdc06WgBQfXA+HXQL56l5R87mQnklP5zjPT\
52hjlU9AIdFxblwW1zj0FhuXqn8Y1D28BjE2wXLlsbGw8/7chW9R4SSLeg2i8h7kQGJJ/n1QhM7hMGzga/frRpa890LIz7EH\
KWXgrl+aekl4hMcA3OAX0KMcDBAgD9ANQQIJmOY7rynCZUIZh8Ll962gUaHiiHQnThfeuvg5p4F6mQR0G5pj/KCuHZRadUve\
Xese0vEki7j/HNB2r75WzwDBsGvj2sy1krz06EvNXXK0uMqdCAHITaqJaqwBn6Ou2gH6GNfQVpJAfHKyd9g9IA8KYT1do4Ol\
6x+zB8sykd1CIk0BvmPTDYps6yH9ftVyWYqMX381d0veh16izMQVhjn9pagzsUPt0fxmGlEECTIHfVtVCeIyd3xYA5+mMtnE\
EAiGT1AJyQ4cG8tNOT52UNwLEZH3aEWfUXlZDnL2TCi/+cBi14ZFxHm1bI5eZkwGfr+Z3dqDPPt3f1r/Z3R07z/k7viCbgzC\
AtwG/Quxga1B5poc5CuSuuhPILsr/nEZwTVrMIOYMAkHuJcxljFbuLG14EftaFa4MMSuGx+3qlNtV/AjrX7hgZCbbEou2Jqq\
jGnr28S7UCqaQwG46c40U2bBXC1BPe7aZCwKWLwCtiMmgF1Q7kbZghogVmkGOwLVgBZxAA8rfpyOSUS8+2YI7hJxG4KPAmE1\
3UbXScnJoMH6+/oPZPiJ1WTQm2FlAvvE/W85vDTkLHXU1FO4np+VBSzisY6udE3v/aQL0AGg35CBqN+qFq12A2yBzI33Sf9J\
T8AF+AFXAGASB7N7w9eB+nwpIsVhdniJPjd+ngwR+1tZN74JIOEN7EtqSYf+9Jh9Qs3q7t7+MJL9TiiDx1nt+EtF0L11ICvc\
KGQ+Dk9eDT41FVacMSStO2QMnpddLTCWbqN01wKg1AI5zT+6MT8Obehg/CQ7Zgy1HYe0Z9GW3HUH+YMSoSbI1fNvErEK8Z1K\
pWX8SZzHzgILJ5I2jSyG61M7rCFx2EAROWgkeTKFCLorhZyqe3gkY4gwCQGyJ4efCiAMWlFruMM3wHmwAXP7nqRQZYYe5ZeH\
+5tvr+j2/uA7YGFSJtOsbzS9Duf//Y2gM4JzN5FYAtG9tWq7E1yBQIGPcv+HS7T9X7qFlp6dmt0tNpOFc0bYTOsHjk1ezODA\
NWgH4NI5wcRJ4SSQdzVh/WVEo7sXcY9Gxjeytp/R5+z4fJfcPqNEfOFfBSw0mY1Af49noS/Aaoa4ZdcmKZdEhOkH6gAc4gAO\
Sspio7e43w9Ki3m74MlOjkERVhv7TMHJi7VV1OvYQnJtmHa/KPvfyoxMzxdWcgFpfwKMIdQfqpBGXpledbx7YswbvDDeCrQg\
iUnFymfDoANMAZVpIcxK1gbuwebhaagu3a2ToW14J59//8vwNwKo+3IypBxBidre3Ww0BuXg7sPMG7DaO7Nect2lLe3wv0dZ\
z9X5w0Hwr3vgnujfSjH/NBIeDVhkcFUFFwVkRezBgEGuBUAqCghKcBWK5/4MedXARm21/k+1NF3a/b1KXVSrAXOQZl7JUxa1\
SuHMBL2eWaeW4O4IeuKDoH+RiPp9Jd374vgN7w6XIH+9zyXDmNJhQ0wBkMKDmOn5HLU/uaBlh0tqmPrcJuAvPu/8eGvZBXpt\
7RRbHxTnbY/Qmxx/jdhUd0DmGd5+bOm5qlZfq3NK8N5ZlxkLfpfhGP94+ZC+5++qeheDTtzT6XMgTN0HSznUEDkLM40i7w1L\
5QBVOtm5ubtWFEZ4TYViit9qcd/LRaJZRVdbZG7HHeLSCacS7LsJsXbz5fyC8Fe6HkxBLIXXOTWPw+UQ+AZ+gIsAncbMeYXB\
XOoAHIeur5PF6L9I5hcvKE43mVdQaq/1TsI1g5/9l5DFKz1ctoqqmwJzFmcjoJgLr7DQ5sz8/Z92J+7QzmnLEWxUd/hIJdJk\
4OCt359nwcbIXywrP8k93kC6VpLTiDABD57bT4M/N4OeQ+nrKE1JYW59wwlY5VlMOnG7S5N8b1tF9tfFHuGTh2gTeNhnfmcw\
628uclAqVn294HXJzwLRTsqfTO+4/8FmyJ8uwk9rnu/rKmp8kWcgYTIJJ+pKoobmnXXI4c1qsIgLmtl3ABr96XBMkZ2tTbaQ\
PtVxt/ADercqYDMCSA35U4rBnPtk45xxMUWlFy/F8o2PuG/Nyn6z3gHqSN6YeL0vQdvBPdPDECIfv+9oEGOIMAEKQeh0/xNB\
jy+oZVZn9p+tJOjBnSwa+beUy4VUGpsX3a2q84prC4jH1urwh+QlJII96Gdi63GM5csM0+QGQcBTufk+PT7o3CwbvLnWBrlJ\
3dwjrPo1lf5VOm1LCEQwUA7niUESL6oied5aV+9m5jMbn57mfXgGCSPHEuB5Ye5kVEqmJUZ337+NWFnCzeLfD2dGcTvhA6t+\
J/j4TT/MIhLgRd9/rbLdp3+fR4BNx9bUOdXvl/TylTfGuFR2MLQqwDoAGO1gBkGphdyZmsNwQ3srA3t0E9AQrDsWA2h/7bvB\
G0YnI/2zD81oR0pgbeMlhdKJNYfgI9eULwwEn9A0GFe/+n5OlHWzsCvNtdA7ZG2flY9rmeYXIbcgoV8d+ogKMFgJy9xNUA+r\
a18CRry5BxTsgVXXP3astu8/Jwtzs5Rl4p77OqpSDz8gmAiKY8n8HuZG2h0ppQdGQulKRapNmK0l17oDSNJ/yp/6BHiGwCrM\
dwuKYCGUcLAPENiN0mLZsn7amHgBnnzI1G6wuupB/xKSmQlKEttDWgnf2JMSqYrLceGlL2ekfyohlbjmZASak+CUG06xfFWd\
Bxi7Cfd+SVYA+U5/IqPj1Ch6I5IidV/QMa4WgBIPr7HTnDt+HahsgRgL1QT2CO/QtfyPebtCc2DunIy7LTE17uvEhFQSnfWS\
hhQCQvGSgrvwRiT+hjBhTGfaDMrhMgYk97obyQR/Tq2cyiN+5J0AiHCQCc9JRGJfTCNYd4iQ/EGdglPFB6Wp9yAExtZCrKYE\
O8eqZfCYM72J8c05+p2ecUqA9pDm3Pp79fd1j7dZNQdm4XlCQvtHjNzdNPaWs7DcouWCi//+J60lSU4EgNQDZgDp3khQCjKh\
c/YT3UH8TQj7hjJyE5S/stadfCPrn/SjT159np6TnqzZrWYeHQqTHPyzh/m/UluQ";

/// Part 2 of the icon's `data:` URL, in order.
pub const ICON_PART_2: &'static str = "V737zoNc/wS22S718TPIJ4zVpIUBXGviU9pUnzKgqBb9USgzhSAIiEl3yMI29N5GW8XdLdouCJz0DhxDA3foyk41VxmjU5CP\
Tj06rricBAntChop3CEpVmgJsHjOrZjnXqycwC2HpUe2FoyYmlUJax+6LXvcJjwJ5wD2zPPrfo8FeQt+5WZbTidhyx5oQy3v\
8DxyGafmxQobop2F+PoQNQW6aM82GSdLA6QT3Vt4QeDmqM0SKQ793XQmU+LoqfPLR8v/a0kOKjP1z8orsXOtvs23/Wq/U4Ve\
eXntkAeWtuQOdhsvRSJI6dKASu5rzfIQIAP1wMmNl8Vx7kCQCiflJEAOqNAxBB8X+4cCED9qRqT2tt4s9Ps9UTEU0bga87T7\
0/msYL9SoxpEs4BPnwPPzz0Awo1hANKM08AKVnL04p8Qjpg552+yZWeTTpDh7N+qt6j2gmungMFB34WHqJnEF/4Dp7sq73Ok\
oDmCAdbD3Ko7rqHdEYfL3kIqC/oB7AbK8JKqc1CRfYOfXVoVcbx7Cje/kFQ/MgnrNu3wn1/Qwo3j0lipdrkF1QAv/uUR9FKU\
6YW+3rHk16gCPg211bzkFh3Gwo3PMqVJTKG8k7dbUVd5QAEGrv4dPZcIyZSlaleeg6qB8gPndxDzYcso7XpEWQesowvdCzBc\
+2TzilqWIVpgzn813O3ZgMakCLpfTE4mp/5xliezblav9v2DDw7ngjaEFRwvfoF7gFQ5mysKXuQS/WdL7dBQB+mJ74IETrhn\
g+0eXQTnKM+xDa/8lQPzBEOjhwwjpms6Y2MAHKmSSNrVvw8g/2HNeWsRfdvgl0bcLzH+xKzhKJQVyQ86+irPq/7ebfBhwF35\
5PiPRjLSg7txtyV02DikL5OryC667a3gGO0ABkL8einbxM3ib+XsoKN16lhGtgMP3IzUqDuLPW3YrGOjfH2JmUCedyeNmZ3d\
rwBMDZ7CJVZd8y3D3h8mi+Ov7R8qPsc4uPLajxd+7+jms57ubdGPxH/4RRAW28jqKtuChmkhOkvkQhcFEHEkcIgBvoBzWSiG\
XahJdahv/mQ/3BaPqx76R651hVNA3QTwBQcc3bi+PZ9F2D2/KpuTcf0UZvfuvgxhDoxSOM2ZCQwaoPKMcdsiy9hnoyjAC4+z\
q27aRoGnLJ7+iMVOcUlFCWGQcFO56XnpKNSI5BC2eRXQUA/nNiUhAGHd0kLqiJpBk0A1ZBPQBeC7oOIoa2+7j15awKliSrQI\
J5xje7ILoDv6ioTfNgaMZscbdFowAIbhIGozrxQ52zlx2p85zSWurubV32y4Wbd7AQAj7dHwItKDnxL/oFvpOeUvWtRV6zvT\
UAOTb5x3Ze0ouvlzsM7yLfjNVo//N7Tzs3IqWD3cecg9n8XE4xXPPxNhGvv6QHn2WaPPUD2vC0hVUY9q3QVLcG8NA4XpYcYc\
2hdNh5rPYS89Lji2v+pR2JOTnw7TET/Aa9A25+6tm/C2PfxlChTB/+GG4+sj1tbwFwL/2gXYab/Te6Wwvc3eSP+QPUH8jczy\
cznEMAzF6WIBY/5RT0jlAXVoxmFiIR9+P2JG3ft3u71jCkI7/e4d3FCbX+vjStlmxyN+frPuXdbhoEjP0d3ANUMj6XF0Ph/v\
ekZ7T475ee2O1botQhQ0bkda4+yM/+u7SnbIdRNckyqD8QDsCK0lw4cM7xDS4X7jyJITRTKaqWrMJJvfiViEtjtYc8HxvPd4\
ptQnOjpogAse5UlNbskHRz0p6zpmaif4FXxCRV7ytJ+VcZGrxJ/ntgPzwoHcxZx2sjTSQSIyuZZFeg+l+fugAJNSwuRZtNXB\
VFGsptJZzLLbLYLftr4BVoGdoa2gbxogbzt2uveRjSuQUMas23Id76p3rKiLqYdyoq7NdvQC3cvIKg0ZCPwaezGn7CCig6Ii\
vQ3XBDFjurPQVADP0g72ziWW7yT3MIqyxw+RXqF0RBd7JOrLbp2dr58b9fn2KRp9+vrbay4kt782pQKGNPTay+Kp64oi/7XM\
oL+Gv3xeHm0jPaadecBb59nwOvdlPZ55dZcg2KCJRdBABKG7nV1c9bTrDfd3klvx0leNcb9R+vB30xce2Pn9OH0PJUlrZCIq\
qi+3ptssVrwf7aQooTevHz5pfFai/cGdolHIa05/so3vw7HoWO5Y5edqHuKIErwK/vi+AR3JV1bnmuRf2c4Da3lwYg8hpLys\
phxX6e/dcs0AfG95Q9nn+g+m8944PzQKZzTc7UrrorUVqmzbX+0X9HIa/IcnH0aK2tsjC6Qwg09uNNqd93nITScu00XjMn8M\
qECako5L5ZW2l20kKoqKP7TkWRa1ibbl6B4N15BuvcKh2HhJS3uQAw1yaL4p/Fe8+gF5gXxRvTrbmSRro+ef8JcuL+mSztJc\
BKaGmQUVBcBivjLOUqXXNvT43TwsMHbhnA4wcgM2D+Vu2+ANICLuvGZwz6ZGWiEAQERUfdGkE1AuVFPKZqx0O7ILWHBnCXdP\
DtumTue+CW4XIe9Cnc/f+F+gU5rzUjWx8fQFK6+mzCFXFnIa1Kay1ri4rG9u3CPvfPXdoFAOGJyzqCuxtv8lOZ8OM/m/rIlJ\
7bxXoPlFqfoWlrVBRlQNGBj1jnViltFmqfTXsD4u5PAkak/tIE3Z3CKwZp39xfmfv/H9Q/yNxm5/PJBLD+NnBp1ZX4Z8/pi1\
6ztqhoQPsm0LtFEcSerVuQbDl6HnYkZapqGqpEl7at4d7BB+CzrTwzisKCGw6fg/5Zh1jn52+dCW7ulf4QSnhyb9xFFAl5BH\
UAz+YDwaGoKIf8LY9Y9C+oDe6NLXwF2+mHrZuD3gLm5p+f/JfIftMDl1h4k7+G+gcRgqkoyYVzefrQWSeqFACl5RWoAVzsiP\
PxslIpdPOEcf27QexSXoPLP3ed0iwACPdPGgy/7duKgpR3HZ+atx8W9koAjvFQVp2mcGq1fOjm2wK8WsaAV/trwbMZv2RZF9\
Di3/kclKZtZr/Fq80E5VMRH7W1CSBi/0UlZbBWBfXXsMrY/3ZU//nf0HXQjX6czSmBwnJ9yniJb+9UFr9HHu28JASqolxrnq\
4CNw5oDL7uPF/Pj5tSLvLQq0FwUDA8MLo1+3wKd85N7AZ6gByJxcfmQ96qaZC3+jooz7ZPZIESenLX3AAlSfP4b3JzB89Ker\
ONEqWezQQAqv+98EGUMS3ceUqUgnIwdWA4tG4qV5d9DvUTYsamZWojyKgJsSrq7XfUkI5bWGy9RtKsWUsY04XnDCR5o/TQa8\
GtozpA9xb8z/3ZiYlwME/fWn/q6JuzdDwU7n1DZHfaCuU5xyB3xRQoS9+u6n3ekdNEc1Mz5kgHttQAZkoHn67kq/83DJGdf6\
TTLoJ6BhSMVGUikrlPZWlrAFoT9h3nU24l1NCMhZps6IHbx/LZdL5B53CxFZ19fH384JVr+CWz5eAGbx6bBrZAUfwcyF02mW\
2Xq0F53nFB9MHtHiTBDZ1/Pj3kIsBkUETVbCIAcJJH4sNtdEx2JjfbrVNYAAyuLEOl2L++Td+cAxTAFp6lkxnqOfJqg5oeeW\
k1tNTmkoDUhSGdQqB3CK9bD4UEf9qsblJXRXTnljClJ7MmGbE7uwP8cHo02AK0UAVTr45CgP4Wqf0VGkKTvj0fV+7+b+G6kq\
WtrTSAx6WDnzfzM//ujrFI7ngT6ifkUq6Es/pWNlPaKze55kwNAoD8AtSrQQ9cNZyvBXyxOgnyi6zLv3/16q4Q5K3OFDhbbB\
syVVN78TugvPAcWAvxt2jx56nvhevd8WbwRielGQdx8X+p/L3uAsDMdCv+49G0XFh5gNf2iwp/JvaWiT824wc9DPUTnaWDE+\
k8DeC6wa1h7+tjYd8bY2Dhw4PhzWmdIbr9xbsdOQJ3MbWA07U4DJPT9Yl/Tx/aDkL8eVPsVGYh/LPXOmLUkKah8PhlHdnn55\
T6wWvHrgNboTz7KBRsnQnWoKKsCPLX365Jm/AKHwN+/V+RnlLI56ISQltoAEQ+KMJcn63khYIIk/u0VPLafQX1F92lg9hUnr\
OofQt/kRrdNMAXBnUIgZtHdIQFj4yCZQ91gYimlqXEq+J4ArewpOadMjFNHyeWv6";

/// Part 3 of the icon's `data:` URL, in order.
pub const ICON_PART_3: &'static str = "8P3Dqcn7JrrTOQcMfICOgdytcCVmf0gtXne4GtUJq2ScnIoxpFBz6Asmy+D02CR5Oe4Df4feVL91dHpmsLAfAY/SDSj/nb+V\
LrkfGy5E7G8SPUXwgNICM9BS6U8lJZ+9ZAztGjYwfY/NIYeOyySqaclUwBUBsOndbPi33niDC2Wn7oVA4s32edFkDJOm9O74\
duPn4489Wk64U2YCsUxc2CihL1/p7iY39A0aEvVb/PM3Qo+I/5RRCLmvEcLv6F1Z2rqwBA9f82MFf9fbaKL82n9GupDP19q3\
RS1EOINOD48/yKu2Z1kHM+NqETvH9NO/BxL4UE3L05TlffWhJ+4nUUAI0DG8NN/fnf9d0lCWAterULhzuG8amz0ouD4NMTJu\
2YugG7N+kBnm0mgXfXe8Cn+yOmEfUQeIZfIgg51KKiJA8K4z5U9Z7y/DO4+6t7D8G7063gP+pH/B6yifgyrqf/1XS+3pmAz9\
KPk2jP/bqV7/y7LlqOyVK1xhyop0ABSRlOosb5wHGec4iKczqH1R1Tv254N9xpy+Cun4+LFN+HLq2dOYdov2ryA1hTq18d7r\
y0H3y5dRuUMTofHUbhsyT2jNIfpAlPXN4bFscuhzO5vD3ux9MxcOXE62Fwr7oz+sqyDkHB7ldrZhSuBsVHfgLfHo+AmxfP6U\
iLX63d79vn/8Cni1wZSCrQg7j4P6vtPbppADi5iZlAqLe/o+pfwozrdgz1h5GVpJ/z8AOrd3W6DmQmiwPHeZmR/SL5abKXDe\
oBz06KRDOg7lr72op+KCwXe1y/CGxoSHO4qR+f9uz9JdZn1AX6ecH/pvJJRAkvLM2H8vK6TQeP4G4QMOZXoRmwUVEKRYd5We\
3kPCxWk+WH8On1lHLxU0x1bF2Ln6CnCSDUDKr5n6di9yf1VYE3oH5DrgJMYbZEa91EHV/gA+OiIDIgV3D714awxrX/3XWHrA\
9fKXHXmHZsuzz+TI4q/1FNGNevC0zuxk+1PngqG75dZ0Ga8QEOKqGjyBapqaNwUCNBsbvRju7V4QbggrSAipK6sz/zdz4Pak\
CCyLfbvdLTZPqcuPjXcN6riwAwtyIWu/8vW06w20C3Qbv/in5ygsJP+KH5LV1cExPpR0VxFuw4zaOd7q6BnOPV6UNg86HahT\
BVXNaGDQn6CoDI1h3g1t78vIcPlx+1Oi+A8Or1gzC6xLd0310ar+xXeRsOf5yXOThScazHQa/RriW8lX69nwb3QB4VGnXpob\
ZdtaHk5EpVab5e6KsgQWRGMo7Ralrn6aUBiK4FpPZ/sYof+nvgUouYrXp3p+tBaADbT/Andu8I9QSdjQMCoU8bfyisxQxrE1\
J7BILyCawp0qkOD07qJxyVHBDBiTXkoRJaBAfBzHG8BUrIKyqDF/+Ik57Sxf+46jm4wGiSC2ptYuTx6cnv5luSUntj68J97w\
AX5JD0RQFkBu26l6vtm2m1AMDdfzKYCT+ptFPN7n99tOxR3Yof3PVZGmsBXifSkIRn68hxXtqrp4e7Jg2AMLBLJJw6V3PaaF\
0luJSbv2iX9QtQibDQCJjWN5B9Pm0memgBM0Z3hGGRfFNgDZo/361Plp5ejvfuiqrn4Hz9Ex+W0rF364ki356DktOomZdX/5\
2KTywV9j8XPt0eUEYlXsHPFAcqoYcGIIsgTjsmCXeOigTPSsqv+lr1p8Qg6WBbAi9W37VlAAT5ag/UtAutub1XF/zbft61my\
HVEYZYi3tGt4dGHrx6A6Lw+nKN9clBhFen9WBrH4QP0AS5kC+f/5mym44Cpu3azR28mb4AKuUtzax+nRYd4i8DKu317iBnMZ\
Jp8jZogFUCAC/KUDD1uBeOP+7u3zTAG64e2Ep6mowfvr5x/lUHU+UJSv8Nx3gU3r3aqFf/lcDrWuPv3PF3wzrV3syDujftO6\
FvwVL7Nm1han8+ezAxFucUWq8FdGkTBk9O4JcAZ+QWw3tL5J4CNFmfq3oOXt+1+CASF3w6XA9clKVV9iQkv0DxkR8g558RUJ\
7J38D9+skpvuRYuRU0wloN4AXp4AMVLZmv7NdSST31EjQMiHrVA6mZcK6At6vXtUCtxZBOtTcApVr9v3bprwU8NakbmzCEQp\
Kfq/Ar1YY7YzpDh2Z8jeq7DSmw9ajMm/AQbnjVxRX/ph/Us889MBI4KEldjLb+e5C35kbI+XsYFOx+Gcrz+eaWV+TV4B4k+z\
U+Umv3K6FZAODFIH4hwTE0f1sqe/f39/GEe8bIH75B7P54rWgHEb0A447zveudWvLLW7VgTFTd7a8poUsPO1yJJsEhcM8Ifv\
fh73EhZuVrb3wiwcvHH96Zzq9QJLy48IB0SIkT1dWoLJEOPMNigIOyzIOo7n8muhNXaCAe9e0hOx0p1stjBK0B1mgA8u6vxv\
a/qn84tGoip/2+Ag0D46SD1Yd49dwhaCZFhWtzAHLRKTQAIpvVHg0Q9N3b9HUGEu6+tDcEefMEi55awOCOLeCOaP51PXgyR/\
m/Y8wbnxJEWSduqocdeAG9201VOv4+xQ3UKiIFTQIALwLZ/WT/q7L9vdCr/WBliirt/t9Dw4CI/5P9v5PZCnxApHaiTDWgKs\
y68OmqRKuaeFSHxoFBcNcYPoX4DxuPiy5GeuCJKwdDM3839vkfr0hUEqV8gfNffjPOYfqFYA/1DOG3LNMKny4yyz5lzFpdNa\
tVAxCxUSKQVGP73zo8Qln08xo0HIygH3HH0yAtj3fJR3ZtBvbA5X3rFgBUM7DEylr96nDnyLbshUiOwLrafXMR5OcFb1wZwT\
6fNJCPKlmtidDlqSqniIYD7v6tRDWireARNgLcG8t0Er9YY/tLUC0AzFl/wpBasP0ke/d3x5DfjErGn2Sof91+qgVeL9ILRW\
naloN8NXZMFN9Tbg0oz4BDy03eeB0Igy0Q5O8Lt4/i8wUs2HFSt6jEpEHdYVh7/mKdt+0EJJ6VqySfqRIW3C8dcLMCtUCR7k\
v4FHSAFg1A2P6U86/G9r9uUGvl7v8mSi/n7b+sL+QkkiVxvMnbJsSvzkw9PTGhZ92ls3tSsuC//fprAQ+MbgOtA/kpwm/+rR\
9R1DvXdmbnJFCG4HO/yw5BWvzK9L+d0oFHi2jQG25+LaHRiDng2WKI9NKPeuz+BFUCAKXe5WDe/X9TkfNPCT9VCD++h4aDy+\
hHakYu7DjJu9xDOtg2/FcV04e0qZUfQMJzCw7q7gvw9PaHx8fza+w3JGTAHhXkp7WhbctwuH0kXwPZiP+bciPMeATXg6Q6kR\
0sPpR3q3GgF0SacdQDEHjZUvAKlwlM6f+8DDpBrQZA1VHC9v9MhVf2usFtqu7+1sd0XAA4QUjqiQzAzUf43WYnM+xyPUE28V\
X9W9V5HhGJfrZSn8w8Ja4Z3hs6NOY3NfnfP/ppAU9OaK/KIfh+JWEJaQGC/wLnM314wWPh0XyAkoRTE8TC7/4QBExcKRh93b\
zkqMUKHL3NtQi6gC0AzGw/wsD5as0xVZ7/h8ZVev5xfAsNB+Olg1V7+A4sa1placWNw3hZcsTeq3eRELUTe2kKv3afegrqRV\
ri6RsEb07mZ1xW+d/3KHwBr4NZCyBiDq/WE0AtPJpH43ufh8DLN2Csf6aymSd5IKfiwh9nbdivKtRoAML2T88uhK/XJLPfNH\
2Ihe3/WgOy/Qmi+0RxXhosi+ftcEM6NhUMyfZGn4hgGMrIPCSPuB60XVUxpl93GBjB70w8a6l+bbguGxoNA8P5VOgKwhLamg\
Xtr7mHhajLpR270bDPwG/QW+Ae3LXav+GGEQPPsFHg3WUG2vffQNDVsRAw5hcM892h3PGpaIQyZaNq4vSzFqyZhlLudjDv/r\
9uTb2opXRNCG3sA/ePtdj9v4cGAnNzlBg6XhKXzaLDIlw7WD3nnF54FP00m4/UvbN+vyFZUJX3aK1jopKbOzw5sQNc+8VB1u\
m0E685mA6jdYmWuMGTl3eHa7/kmRbkByAtYEhHITAfxnv9AS7QTMpqxWOq+KSeFu7e7a4FGtQboKLAVADm5h0kQoVuPjVmQl\
KsZR0OohJehH+T111FI7gawIv043xuMczdwNdApg28aPevz2SfVXGJdPDPrhT2m4";

/// Part 4 of the icon's `data:` URL, in order.
pub const ICON_PART_4: &'static str = "Z3tk/8vzqQBsAxPygc+MqfvIWq6v93awvR7Xk9BQkfrdCPP2ZoVHv8/vz05NnL5P9NJoDMyIFznCoEiWdcjgy4+zYDjyZRYl\
AWXzWLn7QHqikgbaIt/g0i9fjB1otffLa6TlAy/X66Mom9+zcP8oE7RspNcCjrryHZ/oQn6cf5rCxYmcC7Zn3bBkPLYHUUYH\
rjqUmdWefRDkz+AH3hBk9N5nfupQ7HejIXPamiqQhpSgpfAGkBMtsnzvUDOAaCqQcElctTvcBa81gOppb35EAkE7ENntsExx\
QcpEnw+fR0QK0CAL8UmQiiWs/E88//bNOj26AJIE/mhpLzL2BO/hErafXBs2z1/8r+4eBokFrLdUJSdpxevQQlDOrQHGI687\
UAPX0BAzs0g+Gd+K3Cftwka8N0wS7y+uFiplZc7+CYZN7VaUzAcTcO6tFH/S/17yKqAnXNzJvAvPvPWZ8MmXm8hI1WTXzhvr\
FyRlRSA8r5lyAnbM/fyt8lx3avuzrPHnhyIk8LIIfgs/NVk9DUiYcnqNMC9GiGIuGpiXwt4O/dp5URERUUwc6DugSAiHNm5h\
XDH9v5bN3E9afwZDeknH/a/emaiuy/46dTYXMKz+3Rq01QnZV59gL5AigawcHSfWmwaJe+TO6kBUzsxo8I6GmK9GsfCkM78s\
OwinZmQ/Dex4CLoUYBgF/mKjCrsT+hqnM+j5e7Q1x/NwyRPdmHG+DuT4tf6PKfr62bn1/CbSMjwZnwf5d3ZZ/74h8HdDcFqN\
0Zl0acvPKbE/RrZjJzAj8n4Zt1yZBdyVh0C7gYatMA7pYOiOqbC1L9Pd3lP/sCNDyIuHBFaQGsiedNSmLuGt7Jcd7/6tA3Mh\
iuGVh3diDhPJqGL/6hb1Sga9sImBylopnIMv18AUPwXgxqzRM+ZAatr+yhcH0N3IFOi2oFAH4JSpAWTo2lsWdUMf3eMlz2/O\
/D3X8BNCDgdSPHx0g6Xrz3FKRm8nKeJvduCeFNHOv9rw6PoS+AS0r6957TwibWE3df2p2tBWxLPK9rS7OHLolknzt3Y7J0SD\
Hvu8GFUJMGcId08Pduvn038zIL1elpaHiQNZ7f1u1hv2liH/vm/nNBAl1Rwl0nnkGHoJ6mQN/2YTClOz8rcraOWsDQqHbQKp\
AnwMkESalsyHo5uBBqEgAihZVomf9hEkEQzde4HnJDx824+y+DBgTc/cmFL7SmxNRUWHuc59CjRXZ5X+saYdoS91/SHsKZuQ\
mkDt/3PV/wcXDfpT3Y51LB1fEMXsu1uuDj0wiuG8qLCFBi1MKdMm3acJwL/A/tYFwkAMwfXniA1h7kNbAkTOgVCsGVLZhmQc\
MD8UKLlfzZWr4qPJVpZzsKvl4e8Nq0KPb5lCD0zdpk0Avd27WCmC78ZiIfLtcvO/CWwcHgzewlMAedgQpMAxdBdRrAVdLBny\
rCO3cp2H4owQEaHoTz71zWBfh3N99pen00n6veURjfM0wVRfksVMWT0tWz3daER8bxuQMpLKlXtWKzkHAY1YlX75CVXyJyEs\
yYDC6C6gSA+PBky21L5NWw0+RQ5Py/Dw0MqDVR+CeSjn9cGwd5ZTyVeUy35srr5tR4b3ovQenOAZkCM+bshrJyngOvLgzs2A\
Ki2/Mo0ul/z1mnH2fBnUP5Tv1l++Swb3+cE3yp5UBYCAD80JT9IQgsFA0R6sS10RYVbP9Cw4PoGpOXew7m7eKz1SgiJk4Poi\
m7ZzTfIZhwOgde/0s/4o5HxvJJPIk7UC/+wqE9KBLCIwxZtNuCPt06VhA7oaoGMEw6WBzL538b1UWOYa/Wi6vMVWDe/UXC1O\
K9ZyE1mzdZKOvvkh7OkfrLBSXnqOlV8PXaY7D+sD7FOiOiWkP3pjwHH3nk9QoJuns2gqt78jS6tAtFkJgmE4deBi6AqgJgrH\
SwhakBjI1qAc0C5bTNH6HhQRRLVZQVweyVfKH58Hh+zrkzQY1DkDDz51g4y6wgrRXuXjB9GJ9xV8+Q4ORovlP/r8pciCGukB\
RUVQAI9T8u9QI7njvJMoS1FhoQ8AZTS1gxK+dtOgInMnkTnUJ/VztB5Z8WDO7QFO5SYQqkZRcp2XStwvQRXdnqOG1gejkDB0\
f6QzN/XkXnBsuU5Eng5JC/FU5m0nME4y+1Q+JiYDu5aGR7Q1P/wVzoVFqUDR+u4YdML+8XDp4e1vZldRxmovbSSkXmInnmv1\
FBI1cTKDZ/8xB+0tSPm/hELLWBGHwmRfHyOvamZCkFz2BwcihnIZEXCJe0IpxRK1rjJGjXXL4wm6ABQUmS+sf2FHa6dONGnj\
BjlOs4/6oDsQi/f0MvVe95d2k8xJ/mbyw14cYBfK6ApbH69TEYE8Wr1aB+Gdsro2fqmUHtDKUAGC4dHK3sgFIrelj2r18DDQ\
RmbUnY/hkXsuCDFfzmmVMHtIYWQc6X968WRF12wxB+DgM11rhrzi4oLLGOFS6idUcY0oFnWu89fkFVNKs2DOgcwW5prugd0M\
nMDem0UAoAuf6T23hhYDuLG6E/SZzzgnrDRdLB92vj4cQF3qQmivS7VdjPzo7np3SFMBUUZknp+fDu4niwFvcO47P2rD3EN8\
1qQ+OAAOgd7sU6d5fl+okBJ8ZFAiDxbB6UMhM4ekXIAiAb7f9EaAAwS3TRHPLk+Tz4dgOf0emGoa1dJvGHAzIF3rqmu6r3fL\
nmGGw6Yl2Iblj39vi/eUlJ/+zVr0Ixmql5HDx5AfIqOQIGgRNDKQAEf/fZbH41V9eWsj2mj7fFNUCqv0hLo5TXCyW8BU1ZdA\
+Mdc3QnxIHT2WLvPdn5sXBpW9vEBl/avHg3L1Weeh9ff3gqu48JyrlBOjVSmx0FC9vg8ydY5XVgeqcJXaGUowKgy6B6aih+v\
Um/t7SU74R7MLA3X8APtxGx0eSDsO8bfxaiZuGRThlzX9duJBfAqtRjaaEnuX7z+gSWkvHEPMLfxyAD2/qDVoxaUBnmLuTx0\
e4Nv6cIDixFj3bhYMbxEMF1B2KpEQkc9+EKKKJc1ZKfCEA8APK3Tu4ntqIphZhEf3bxjoZ8Bp54MPv0vMZP/P7I1Cp9J1ORv\
lVGyif/s+dp2Bx7GnhSMsv4nfN4eKPHSehPy5KrenQgzqEQBOMqGTm1y2Q1qEAm6lD4hWFIbuGlMGhjLrNjyNn5GIoIhikPO\
ZkcEJI30R2515gSvgqu1lDaPb5DJgdf3PXxEHiOf5O+OClHVxi96fkGVqYS9BuVvDc2QzvLUmAy3qFiR4SakFdha/qEwTfbq\
7by7/zWKbQZBo34jnxakO/yMYoAOqudIxLtTA7iCY+GZwQkiHlIb2QdoHZ+CPQ4qbxguAuCrPjj5o/iv4I76vgoqesv5uH8Q\
tZ7A1a6MRvP+bN9XDNx1vht60n7LL4CcQl+NS8/aAVl6qgUaf+DHqgQxiPMfhomoWQcE7KJ6gUAHKWA7X/4qBlcP3xZjOwWD\
p4b9FWOF/E37Gq0KQ5DUjNp6Yaw19dI7j9E87wcj/0xoq4s/CXCto5JYZ0bgF+7jyn9d6UC6AHOoXxEpHyi8vQPJHzBvqAk0\
IyAWQJVVDCs/eqhGH46VkuBtz9qcWXqID5e/tRWBDLL2wZ1yMUrh3kuGaf1YF2928wFPfNumP6t/nWiOd/PwCju7Vgh/YkeH\
oHwKDIAFiXVHeCzoZ4faoSu4XxN75jGFJvYnI+Om1RkKQBWNvm1QPqIXDxk+foLTom1f9//xxS83Z4daq6yjlbgnakj5Yfhe\
iXV4vwpbMsfgLtlK//pe7aShjZmTd1E9JylbF5zQgNCQZ3pkP/5Hk5FDgAnBTuVR7ZSUCeHhahkHqnAZhLOVeA+dq8/9cuSM\
3my7k7R0U6TdLPf/vTYPhra+EddLo508JXgnpPaKnhH9ieT1UWd8r6ZrtuHn4Q7s8zk0+cl7VFp+V9U6dz1Yx+UP/wMpi9/l\
+uOAC/7+UXspDj7wlmfz1bgirT3vj7MJvbwRp4ebpDGHrz2zX3h7DGPuDv6wVeuEl8tYZPz/X0b3Gw8pkR4O3Jr5TsERkOQd\
4HIbu47qlMfoDB7fktwGtCOPq/UnPr3ijzimVh60H1I25ubjoQI+iLi66auxuv3r";

/// Part 5 of the icon's `data:` URL, in order.
pub const ICON_PART_5: &'static str = "q0zOIChOAX9MEvqG9/KAcBv8uDYG72mHr2PMxeloBHfMff47j4A331kq3qQer+F6uS4NOViVBUapv8E2pjPrxLM+jRKgh6Rz\
SGqPBAaFQNZ2AJ/v/vNvASRYlI9Nv1yXDvGD7xhzfG5juiEsDpSRJ/yvpqREJIAM2FutfyuWwLTYGIM5LBySDdMdkF7M5b/1\
VB1RmU0ZEALg5c/D3x4T06zs4+D9d/sQdyS/mL/8ahETDNgVTflLH3NIbWuOXJXPjgrkytw8dg6O3yPvzY/ZOTOsOS2DOCGI\
QDajk+PTpClE1z0S2iNQqAunPRDpy03gQgNA3gfbYq/TQpZpkMTgbpm6i+MtUwvlJLLJcWAOZ4/99g3u7fXXwQkjP4Sg2p/o\
+Mc0y+P4X13ltyROygeoK6BE/q0xKuHtCqJi89BbwpLXIbDir1o5VIlaFEhvERFQw9NbkzPP4LL95v+h7x8No0fpFR91Dern\
UuV598tWaNeCYKfRcFnKP1cxVId1RmAAnwpWypunePU1kXqUDUFfcbcG2sArPd//l/B+C7rerk4jOXd3FIxh8RuDz8417ddn\
1a6LeNiIQr+7WEzi2rbcqxHcc/ODbi2IumX3XVNttRoF6NjzHXDW4Di3adZofiyGS4fWQktG/BowJvFkyfsW4bgJLc9MgIDP\
TlOYPL9aImtiEkASAXTXcMDYBDDG/pycyLJttIvOEBOBkck1FiJfCzzwMzw8/6ffHwxmJ1BY6k+k/pZ1+ev7yiUtRSEkSLaj\
1AC+P+se3h5mFtq9vt1+L4C8dcvMc8yiiAe3FsxRH87vSeMPbNDeIzc/Dc73Hw6wM8Rq3uLfkmWg6GAq0VAL7ejvPv6A1Jl5\
E7Gvh5cdWbi24k+QGcngSxOuDifxfMPO6pGXlw/8/q2kuR6v/6NPvG/FPO5cEVszfrsvhpQTyL2sve18bCA5d0UC5+2rJfwd\
EUF/1oHB+oWPyA55JJIPIoWjfxg4fHdeC+VZBr7jvBy97z9ePn2VRRyzXB3U0Tn6NTkkBKHypZeqFtM56pciC12ptzL7gYcP\
FTff8TdEzJPtd8sh2yCvmeUH/09v/24GDB9mMvUGht3DubIP60dcoWLXTi+t/y4mix8L0qw2+k2t+Ioy0u4pfVLPpq8BEOEQ\
u8bURbISy54Pb5a+5XAl7MHn4pOjQPLS3XVB3plOXA4o7jDSZ9Xthx3Fzn0xeKqisaicEF5dQMKEqYF//LdJydkwXXfLxNtR\
392IRO0DbEPv4d2r3u/GYXvLroEFuVrgnXDGqNC3+M+PyKHZ/U9fE4H0bg+AWH1avFPLfuoWMiRXnhyq7s9/4XlwZxqXWbo+\
4+wdDUm3ff9Chtzi92ftueC+W2JTz45APgoLSsHPYfN/l+aDLmV07It8EFYLH48wth2ie7VC9+CvfdYyeOv93JmYKBZ/n+NL\
AG/SKD4c9HhsDsG3spQ227cFyKi3UIjv9AZ+DfpIzKlXQ8sXdLGNieV1FHPrRftzIaraJK7uXpDRzo0a8wO6/+FL8qBYBo7N\
4x1B88mMkAknQmyb6+0sNLWsBocGJYLv4ieODr1XDwjLocJlJln7uCv5tZg09XJMFU1E5OZmpPJKNd/qWrusEiXPyKBUg3jX\
gOYnCRrgTb4mnp4EkVWZILtqfy0pfd7FeOcjqb50eokgzmlJwZSgEg6FopE7BLGK8fuzLFdMPhDOWN+tZZ2yLh55oN5sWflX\
0erp69BtYkgSpQU4zfH4rWRGShBhRpufmL7fDmv4dFRp1WjIlqDv89PUK0cHevFO6zcHTChf+2PSI3+D+IPPAHOh7aKUTkF3\
BA/Hrzt9ZNvFpRbr/1daaQtz4iLE1DPoWUHaEUADKvP7V/4mBb0nl5Yg7rEgKzl8tEGZE4PgcnAi78Jjg24+Gj9PzchWy47r\
PdcPisuoVFC+jz2/ravNCHyDenfbQV1hzSXsZKu/7/rukOP9wzUHjhzYjFMQoX5OM1xO9tCSJVEWrMzAl8noTfd9QhACpK2X\
a5j5f1ztrCHB7TMCVBScBrzaePtiOqagBiQnRvzSuxzMEdX2qCMKJLM/hxYwqsPyynFFxvVrUdDnOvdtqBhtDz1PMYQvtgOx\
w4rX7XePHKbmhH82xYrSDW3Qno5bcmsYd22LX/N1LJuUf22nM4EfvgWA8OAP5f2iEo01JoAd1b8eYZpfDuroXZt6QgCzJLeE\
lDTf15voJaP086z9xoUakhOq3TQBYAZm+t8ANM6BXKfT+sOmCiWiJ7h/jdHv91vwinmfGyo4UA/v+Z+LATzBl+O+OTUO1fB8\
fPq1/8FDKbMSoSbIWs/GKY+VMsvLTwoOYsMsrZ/78ruggTRdGBiNq2kWf/f+B4zJYO1FzLlQdqpvRKq5uiT0bTAOsEQEb6cS\
gu5yUCdah0qO8BJ0VVfYi8tRDcyEt4izmYv/2kbPvfMLQNnM4qhBs/36HsLuwQIYD/MxQHfR+ydcWd+HLZHrj680OgpSyc4u\
SPTbAdvddh/FCXvbsJ1V3tDOsdWvjD0ieHw/1j5YQbsm+eA9Pi3wdOAPwcFGpcS8fjcaPhsgAt21dzsU9aJt+FYa0GEJ/Jzy\
IMroyyMEIZjkFVAbBKOojp2hw4oNj0H2YbjarF+rQNFt2Frv1km7IvPAmB5Ths3hWTONhxPI+HlEVyifiM6Om/56v18NrS07\
izqi93vD66jciUsxWIiPOqD7dapfLfMjwC/nlsGHSuzOMgip3BtOvjcLbANQllYSNTWJAD4iw8kVH99aEyYg6IZyCssXW1Gg\
dT+OSi3cJlE+cwOCksBABOFCryEKJ2vAozYOHOSlLHhy411XLTDZsye4vSHBiHYwsuzjvABsC/64aDUpHJzqS23WIlbD6cCu\
PRnl58QJuj+8r+4fDe9J5gC1Be+it/HoQn0GzK0UhXRTvoy1dHobOvh3I3/RBHb7yfO8E5QbkGwqi/egC/fmJ9fPV9/vaf4P\
kyI5s3Ajdt5e4y9ibzeg32bWuhQWunPrYxqnOJzqUf5KDhOmn2pGTJlV7je4bJcWba0aaiJ/vPSgFB4n4OLtREc3ttq0EFSD\
geApOd9S+YC3rOZmXDw9+shms/3wcnNMbPiZhitso22FwkoZY04d2N8PXaZNCKTqH+sPzJEUpbmjyyN+PCfxSH9UnvNoKZOO\
ZHOiZnINcMIK6D6rA/lXd/I3TI2NyTyssXiQixiBKpKy6xI6oTAAulg/E9+VrAW/9Wdn19alJlogclrzz041547Od9Sm2AFu\
l3uHCP4aDHGFABolfCcSkO2unIvqJ8c9FnqrCoUDD4xLy5CRbu1544c8uwCNH91ksFPRUXC9Bkmjxrk+hbpxXUa+AvVPnbVE\
40inJE4+L6CVwDq6WDccx5tv3YxSUJ+dnpsP8kj+mne7h13LfHz5yGlCyeCtG/nRwpItXTKfwv1eEi0UtmAC6sdXg4akZMJH\
y+OgkKiuvOn449fgF+2nRc9MAjX8AdIyMtyCnmb0+FxXvPwE1oq96NfzfUZItFgqnX3m34P8ktT3F6UlvJqUCkEpJxR6SK1F\
2DOLYplEeL3cKbQ76I79cnwRdrUqwmvnwUnX1P2IDPnz7j0/Pi4J892jvWCpX/qm5w7WALnsnZeN8eA9fCWulgAIZVF2yv2/\
mZnl0k7q1SY9h8NBMKy3mOPaIwswabD/FzeRS5NDud0Acjoybd608co8hJc+OQNuyS0zdRC5jcNwy9n97CaUbdWJIVuxyRJH\
6JAuWHDSlwed+WcD3+7UGVaal0F2NART/1ivIy2Jp0AZbuOgoL9mRZvfApyedp1F7I4683KF+CQnzWOPqoUnPu3QOU9Rqk8s\
/ACfYnuBgoCQmFPuUjjBzETDwjHEXfUr92lfb14n38RKnebRqDNfgrlleeHIKhRoX5vA2cGDUJgDlgaoPdhJhZuAKA2Fbun7\
sXfrlvEPh5e8BP9w2ESe9vwtctFyY1HyGNgAZpAkM7NoXLeocJr2m75rXbaaez8mB30nlYe+gsrDp0Ds7m6NO4kvIY5szoL2\
xSvUFUXUTQWVKmPZ33ukGt4aWpURBUmV9OauUUXEjJ4LogLW8kRS7I1OKkOx9Jqx";

/// Part 6 of the icon's `data:` URL, in order.
pub const ICON_PART_6: &'static str = "QAFaUFsDmeLMC6U3MpMaqRj/Z6gfTz52DjMXKr1G0CDLRkHl4FToxqBQDlhqN0Jrv6Jdp1JuLiJGJHDshR8/WaZLhrdCRENv\
OHT27pC3fN2QWFJdXfXKJp+nPXKTEIlMjSEyU1UUpTjb2newUKjArIyC3CMFC+ONYb3cID4Zs7+7O5ELg4eDIbPfz7YN8J7W\
SUvl7u8OJVUcInoQD5Ph5z1pbTKrADzBwS7dBBR8076sJpBRXdv2hKnczn5eVHd7ROsK/cd5zVFpxwWS+5ZyHd+E3gxKjN/f\
oBmKixg1+bFgXrcGFza9DfWRKPF7wpLuQgGN2tObw2tTs8+RsvEkI01juPWcM/oQ7Utpuclv460nhTEt8c9O5TEY81tNxUcf\
g1CqYelanZFO96Bhf+l1A/IOvvYU18WQJAwbUPi3byadtGWmn//7SVtwESRlXm0KzXg1PBlqjRxW0uFHmfjkODfOG2kfwcHn\
Ia3vD5Ntn+n462/g/3DLCJR10rmgd6w/sY338F1Wo9Fz/RWJHZ8/Kig1Yt/in9W8K/jw9TLv5EHP3q0eInyP3AmjFTdJXNa8\
8X85J6SJByOQiqw64DcRDL9NtGoz+jWWXn7D/AyVHXivwETB55eGBsewgP5mdRZeaVwHWfbIXjZgqmMVEtYMVTw1VRQtkKMV\
2bwcpnRsJ10fp1bKJEHmobfsWszWwuu+pAXAwvXd0NPkXTKaRyUfwGpsXPb7PjGpBzFfy8ePZ5kcKU9GTyVtAGZA2+28j3/l\
8bbdEMdhk4OWoVAGYt4C46pojA29epy4ijHIBpH2+FhDOmOC15rxc8PMRhjTOohJdKY39CJ2WIlUUhSvyL4c1Rb6yD2cuOsH\
srVgcSjotx179rlMwyRDbk3XgfpuPQp6uFk8KNmaJXAeqv75VWsDUnnz4Fiw7yziXH96TeYdLTv/E78e0GB6FOnRy/BEmxpX\
Q8Oqo53DhUnTQ9hUJg0vubYf42Uz0EkWl8cFNvmHVjL7tpAxQ3fhzj+v89NUKQY+iF7YmZcA0KuHu/2w1ns9UxClUFNd6gXH\
6Fyp8Mpl3/a6i/kON5GcymHb7e6jz5Y9AHFWGFc3fWknj2uZf3aSnYscz4FVwAXOP3bjARSTR9CT3Sm49kwLF0vm+DfAKP/b\
IfQzh58PC4jiLkdi2GtSb0DBUhxu/Xp1Rto6QLaOHPiGkHM3BHVdt7vjaQJ/r5BQcEaaW1vR/I//Dc5V2UdfuE78Dk5bc3YY\
e9IW+XVArNQfOAShamquHl6nBHTCRoxdq9h2DhPn7exh2VKdnJeO9+AxcAa1UQmwmGBSlcM78RSmCK809ERxfZ+Wrw+aokEb\
p567oewlNKZgWV2FIjipW4mD7676gu3W3aN/eHGzFsNh1tfD0XPlWdffJfomCo0aPpC+32X93RT5mjTs6D+4mRFxoG5D5qnM\
VMUHYOTkqvPWpADUu5Va0XoaIcnv2Lr8FTkpFCe/sUXATs1YGT8nczn97MNjhhP0Q1/pYv1Reb0QInvgCqsntmcme0yxsJjz\
w5amgQz+DvaC4QFVZ6Dl+tJg4DIiSZOqiV8MTqCfpMn644CmsPa6fnUoJyHe4Z0w7DjxYlxhQvvsnFE3vUQrSVJ2F6kEnSIJ\
FsEN9ETbklEh4Zrz2d+8Nlh1RtRjMrU8dJlXGJ3Z+ganukfHMUAv3xcCR59d+5vgc89VscaMGiXafEmDYwHBdDe7l2mjK2JM\
JI8qZvT8qELWhyUEgx/nRl0QeFWrq1DIDBHUPEgh+AYR5PdytrPRWgvP3ft5+EpbFnZNozPUCsy++gM1WR/kqzmLoRv2xmZW\
pIiKEfaq6vRLNV1+Ls1SYYJvUJAy04dvIEfPAfRV15y4Pao1/SXU7++dpZ+f+qgxb9mBo+Em9A+xuGRKDtVgL/+5vvKKmKBT\
tOiUGL+NrBrYWjsbk5jtoL1SoaUrlrTmEJxKXmQMvGvqK2W29QKurWpPPw967TsHjv6eoan2gG1RlQ5+CHLu2gVGMpk+VGnD\
BOnS1mC+BGQhWhItwRe5zv6pDq7Ovq8PM2bk5aUFiUBzfNSYCScv7SeLiyI7QkzF0GqgUATtYMvHljwcQiHEn0Ux7u7vD6X4\
essotpF5B2guGdQ0RL6p5oU/VRECsE+nqx6aS5SDybC2vR3CA+gy34//N0XPQSKAnl1aujRIqzApRpSbu+9qQB18Y06WDVAR\
7LTpewAJEaTdhbC0koOZh7ttZW+vvSLxtQuPATuCikrSib/9zVTDhNHjL6kubmH0IIUHecJv5eotTVGv56CRsTMsQgUIZYn8\
hg6BoWCFF4UyMxpEO0Ti1UcvKTSk/VgruSMyEFIxjxZ3Jgx7FMEaa0FUy99zqLdGNFmDsZx+14DddCw4ZoF0YcEcr+ErWhd0\
TlZkDl59WhNYaZH9NYyj1r6RH4eS9//pIweqKyyQkVs7jU7k/Q7CKvKgRI6ka3RzX+k62QquOiOofx4ZVxZ8VQgsJnTdHxRw\
k9FFakiAJFKGihUS4OhR4pNp+Gg7LHyKFoz37t06Nbw3NTugnnpALUhfh/DSC8Vytw3kwAM3PTAhUkqBPNSTZ0b2NryLa8/5\
IOmno2fLv6EMxapi7RksLLiv/1oSs6cK2KkZmFwCgwUXH1pISLPx4ZCi/+ccDqHnZ1gVR1GnqEDfUEmSjPTekKfSIsOOGICf\
dJvF4bwQBBsESTQJ63lecvo8pQyfzbhE7h4mo0TXL6VcmnYGHBtmPw4l/qFj8lsT1eqWlQ3P8dcEFYXZ2DX5wSpYeDqURVZP\
pRXf2rU6NEamRDAamn8x8cLPj4FYufyhofNTfdNBY/iN3/cnyIpmNiAeIK8FFdm8lFW0v2Xhyfp534pSujQC1+XBcPM39l5v\
oqQPfZXNxGkmg8uCh0yZIx56k/ijeXhAHZQW5ECTauRyi8tyRBlZrnaiAH372j21dlUaYMlc9wvNnQ1f1qQDwTorScaie4oP\
wOAllxGxIuzsf4/Na+EN5EHeX37KXx8P4yCvepCx+Tj0Gh+r+G9zgBXBT6pcmBEASzUAgQqSixoLSni0R5/0T/Rd1uks85dW\
m0KpA6+hCGf6qpM6fWV480sIQeFnBuUIfgSDr+fkMKe/cn1qjLzJ52yiRVkoIQaEH2ZTayIZQW58MLaKb+uJVH8a3EdYNbKR\
vEEN//q+DC0FUAEMx+AbpCD4PJ1gse270F0Fgcewa+XJUEu1Ncc1OkQg8K+1zer2V12YZUNPV6Q4zpc2CO+4vWZOT5/2AZny\
n7rphI8PQwWauLdp+y+B11o1LTsSkl7TzcN3cf7DupfjNq19wfXrq6u/SUtN3LXJ2VSXcBQDBflA/wpi8CUyvuW+l1KpWkQW\
Gfnzcdh8X7zugSNrQ1SM0nAXbz0AhobOnVp1xlaj/2tmHj1wyicQdTRalYxa8tOix4ITkgoTu5j6l7EAkOpXO5c2gAPI+RFt\
6HKIdv1yehpz8RsvLV80iS0+/X+wcpORn/rz5oeTYRABLMF4gov1/HR2rXJQSBlO77woUiWBefDot2nq6x64ujQI68cT1awA\
QUWIp2WxIoBkVOz7n4HZPAQF2gTk0iYE6s0Itj+UU2V6K2Jdnbs5cnyq/TgvzhvoHKBVkjEk9lwDN/JODGo41qjjJTyemnsP\
tfwfv+M9QD6Jc8z4BZDXwRx5U4LNLiUtEe3JKYIbLydh/LtHt4jxKZqEKRUk0pnFRDDznql0AU3N834Aw+VTB3Zxa9AGkHH/\
H6ejY7Mtn+fz06RCw8em/0K2vF67T4qyzIapGdm4uOvkPwzaaz+Dm0TXVK5qL/paD5/hTv/YNQT2BXASABJwV5bEgI3IdjUH\
XnkECgJqNrD6XD0bRcQS1GnXSsYdyRQN7iyJBGgqFoMGoi/SKb1EZOQjs8kTt8a+z26mDu+ESJYqJ67/JZm1UJ9v9d012O61\
NnKaKRb9XEDxbggmwTUvPip7ZwP25Mga/WpkBeifZId/MgH5hzZz8xP8xYhHPgKqhHcIgAUAInCamG1DiUBAJ1/amxyqcUdw\
6iGaPsPvIE52MoiTL8qB9BblEZ+hNMtp27mzv4eLmLXZ3UNz+0I0lVjGoVKOoJ6P";

/// Part 7 of the icon's `data:` URL, in order.
pub const ICON_PART_7: &'static str = "VaQDOUmjmsxbEEb/gOMKAaeF+puwp1empBobvbv94BKw/wzTwSyJteiBFFVNLuT4v/94cGV9vjr7ysBLYdy4Zv1iTCusNnob\
DUuhQX+v+/PTBYSRX/D46rcD7o04jCSeBwAaAENfrEh6E4KMWYkkUGgLnLrw1BC/4AmJqLUr86IjmQwhQl5lHo6t5eewLvYy\
SYU8Tp+dv/xsPHKxJV/Q1S/aX+elfM3izaglWn9u9KOgf/oTN5wc5USMvR5xZ1aOEPP983SPm/KNN1Ks4B/WmrHAynEgDVAS\
cTlYyS76AvjubmR2/za0TBau/vQOWCJCDOmB9LzYOIoymvlSYJJQLRjM80/y7ZlWrEtcJs2lH7d4r3iwJ5KrCZpSLhh3DXqE\
gMt5my+uZtPSH6U/507yAIDfKC+NO5sDUxC/Ykn4U1h61vB1cV1Mfi01v7KpmkiJ7tTmfu72cNnF4A1AaccCSiyYSgegQqUa\
amoeqTwe0HEg6UPELCgwQGCYhkMPX4o+eUMpmFk01791A7w3wPBuOYjONOUBB9foAL/72l6hY/qd6rnx0p0shJ9b/m422i1X\
ZmTh4cPGMd8WpdoHyCKpWE5O1/GeoxbBoGtAXMjqWRYDIT+oBiwtUGSj1Nu1AMKRl5goGWfInFGIvOLTIVFRWWVkARPq9QVA\
x6elJrMnfw9XSDRt6eIhddYqX19/EQFYhNGnnhzuQDIYHe6HuoU56S5tLLPGr7jjTTSQikmQcJCBIOlHxCadeUDZNsrsOwK/\
CzkVFMvpp+5scYHBZdN9KzC+GzlUnwNbOnpAQq+CE1X6oheeffBOE0tHVEiITO7Jt6K5O7iHrqWby+LsPtpxVOLwDMSSQxOC\
biuAmqTLbK80yNI+PP5EIiPp7ESXPsXJ6IJlDNv71Kgan8lzgLaBLThCaHFXEXEAtQp7AAITSIE5DILWrpSERkB5HmUSPMwo\
p8FFTKJqXIEZFCMpjMEDKKSXgozRUJ9DulTUvCSfKc+YPJ3KL6W1rwUnv2rjhqJNmnBK+lsafh1y2p7EQfJZ67oqtsd1Or+Y\
W7ToGtQWxTxNmgUPmJ3uo6XPyx0ADgtCYATm5SK6eDKXnool2ewkob4jNEWvGOpPNw+FSOLiFCe6NFkC96mv1EM9TW6OUmkl\
QimuiGcecQjGCEYMSC4uF68h3qBSJZ2Z+aDSv2p8HCnaesonanluzUUp5ATWCHvbbOpkKbsjtfvLKbTDFmBnXCeqohcTM6Wx\
SAdnva6amOYJTyd4W4o+xOviDyAlbEpYndvqGALIsWgb5ilwpr7CPi0wEY2gxHgdEChUQAahXN0ARpFoCahpcbCg1v3UqxaQ\
2eRZU+v7gc9h7PggwUvNT1eHdyFqRmFtTJzMsBZYX+iiE3EnJkPlwxe4vN1H7SyJ6a3Bmm9A1XsjQRN+PtuPDXQAODUwgAXP\
ikej4GpoVv0XpoK6qV87elwrL9Z3T3+NZnEDsS5TuQX6KR2V9B/feEHwNNENI4qqK4rELOrcjILREmxvm8EnZXaC2gOPuiR4\
YIoUa47L2NsN+Kduo1gajl/g9NjCn9w4UJpsBbYKrlaJBl2w73AeAkuwYf3sAhu19JtfwF7cifNx+HY+l5YEA98ovLxHBmkP\
NtHu780uKnfAG9Fz9pF7eNjISJvcKgio92OY6HcOGrC1PUMzhMAODCJ4PvczB58wXIhqQ2Yd+sO2bs9vUcVfP5KV9AbbJQTW\
iKJtCNQyLgsj6hgla+CtaCiY15HRiwvwBQqPtUHSjuDu34X69NhjnGwm8QoEU//8HKxf/FqiTVyUJV0a55I5jYuyXEdGsuHH\
xVnKbkMCKSmveMsm1L2FUA4OKnUBKVUQ6XXiOCh5f+OMjuDmvAtdEtPBA+vqWPXMzzx46T8MY/h0EtiJyDukH1bh0kmsm0be\
Zf3WkU/vwGx2xc+Pq1d6pHsJsTEBc/FfzMA3NI7yR6kJ/+bb9u/fYMODdCMdz55KROcH10pY/3bxT+98/dW+35lE9BdO9+6M\
Ds2aqxEBikMXTH445h/sKhWQNoQlH15kKj90LdsIsAwMX/KJjooITY/3fvaXh2fpzq7sJ6gKrLmqNHmBJzcILIPQX8vN2Fd1\
jK5qMYdFl5hQhzUf06PZI3vMDsWMsrKoMsNF3KXTD3wJ7oFxkMNw2NEMQqVck7TFWcJRa1+nRfiHWpiqe+NpD3nqQI2fQUxt\
uE99WwI5mwuQDAxU+8gC9Lz9/4+7BoE25LUEw8KjxI1Pt3DQ8QJcDdUVWkyUVxc29P60pFJVCMnHojSoKBzBhKUMqnRiQYzz\
5zoQiSzuYKDnvybRCvQZELUKBZC8pXuG1EpKBR66+CrJMBqZZiP5i6KdPCP2BmpTagATYVAOZ24rT7C0ffrV/thB1J2miZag\
JNtkHtm0J0xxDRn528voq0TqcDCQ1KoKFU5ZLyctGmjDoYXcDrk3AmB0oxFk/mEXVXchXtgjIXKaNuROdmMKJrs6rZdRLW4v\
gKB/F7U4k33SRyAhPVDqUhk2QklZAygGhXp3oIWthUA3ECRxIudD6XmAEWbCYAcPFTggWVhcKprAK48fMdcOSMPtl7VK89Ae\
O643rSDtOkrtNJZ6cJRAUetHPQLiIV12SaR475vNpAOfE0cYkHnKpGaJbTBKaJHAKmGgXKnaegNnFYe4OVIG2BrllOYamI6R\
8+lQ2ns4pQmBaL+nhK1qGOybZO1pHggeZTeLCvyKajBB5q3EqjW8tAqKEOiq7zHBwf4+I9AQacDjYRAEq1XyrptDa1k3b16e\
hAooVPYZ4akAymneYQmNI7idknHSef3bOJ8BqQECCBQUKBauNJaFAhDXEYBJkfw6FSmFgFEhJkU1PKNJkiF9DkIPOEVA5qc5\
5rHgVkrpAZUk2evbu7O/h7e4hrTT0XG6HpRBmD5HGnTDqqeKzF+SaB+L6pNwIx6GxrSHn1rgjdBQBO/Bn48DUdkx085YOtgs\
9PK8gbfM+YdnDr8MjqVHvavSmyQLRdS1xVRTQTaRDhPHGVUaiUyE5Ik6CyYdI8SNMg/mt1rW9sD1Lb48BE/UX9tVbiPTgEBl\
wGugoAnMg0SXfj8KUd6eoPt8ChUzmgBeQJfvKyzjB9aJuqHmGyD78HE0Fjg8vmwmtMmkMkmEwP0jKIe4/MjWDz61Lqm6RxBI\
P2fA+S3BJ5CbVnPm4+Ji8u0agdwXtg/1COAd2gm7cMJyZNuCVg3qXeWRyvefHPiImExyZ0rrrjUwYXlWsub8j99szUYqroxc\
waRiAOSX8niUpCQ7rAEjeA0pGQ1ZCvc0OBnu5ysvsj6YCooL5bnwJq0RIdTB/f3Ac9+hZtt7aAqQvLWjCgCeaFbCxmAxdBFw\
GAOwwx9VApLySfy1PNA0cgMsbZN/bCGL6P9BJ5kKla6xcwYMCATWC1AMDFT3YmtX4SyS7TP92u5u0iM2/m+I4w07LBI3mRbz\
VUUAMGbAs9NIAnwaz6f7IyUVW4j0pCqTBkQDs5rEdOg5dw4c8GAwYM2BxWRQHMDSDII+ym7N3GAeWIfzujv1Llp/gxtVvm94\
02YMCAVbBWAyDHnxAi936/l/2mW4ZHwOvTuitptP/AMcNQ+Q0YsC80CwBzT7/b6Hj5vjTYm8Jbu09N6gwPj+uofKneN18wYM\
BZYY0G8IJ08M6ShDpPbowx/c9v6wcjuzaTXqIEk9tw8S8HAwYMOASaBIDZ9qfQHyzadQriT9ee8EPstNRpVdFjnfwGk3Dxq6\
eCMWDAgG7QqgE8KR38uqX2Iq+q5I9gyh0fZVA0GTDgeKhmxjCTelLzDkFwselIRo3nVrP4f8cxzFj8Bgw4B7RQ41wH5rj/Z7\
Uw+7RqctHipwrB6wz2FgMGnAdaBMAU+kEUWJsSqif0pMX/8/2DlIv/c1z4d9fXHusGDLgqVAkAVP+J4GIqHa85lA4nMwsvOo\
c64v5wzwDo2EKmaSY2mPvBgAEDTge1GsB4MDsOF9XQuvm1qVHQpWWg9HQxmDkBDRgw4HxQKwCupx/UhntjNeo/tXi+aViE9J\
RCfDfi7l//aXANGHBRqBUAY+jHZvT8V23hRR1fpP7uYOLmo7z+C2DAgAGnBVsAoP";

/// Part 8 of the icon's `data:` URL, in order.
pub const ICON_PART_8: &'static str = "0/AEw0U7A01pJ6j8J93901QPnSNFz8yWDAgAGnhhoNQO7nt6dK3v/D4zsqPf6U278LDBgw4PRQIwBG0Y/MvGKIS60M5U/oGS\
rous3YbhT2GDDgOlAjAHrTj8OnK5t7EJvPy1dHSU/J2Xc9GDBgwGXAEgBo/1Nji3Z0vPVoZervLejxV6j+r+HufwwMGDDgMu\
BqAH2kg93JJvu/aYA33DumvfRyMo63wIABAy4FrgAYKh2kmjn/pg0Ir+r4KwQDBgy4FLgCoAf9oASgI2m5gsrrjlHtpN8l4/\
gJDBgw4HLgCgBB4yPRfl3Rt6Vy938Vd3/bt6Y1YMCA7uAKgP70I7fI1EH7puFyui/ZA3+CAQMGXBJ1CgCMAFDHWqoChH3Hs0\
TWX3QHuXXXPIPJ14AB1wVHA5AjAMczCmBIxxDl7wzb34ABFwZHAMiF/edyimDawHDp6Vnc/VeBAQMGXBYcARAsHZy9UATRlR\
rAGjBgwIBLgyMA5K6dXcMDRPqvGUvBgAEDLg1VJkDLJn7K12PBgAEDLg2OAKAogEgC6tYyQHotDwwBYMCAy4MjAEQSUGZuMb\
QJkZWBwwbDrwEDrg+OABBB/6LScmjVxFd6zaj6M2CgHoAjAATFr6+XOzQL9JFeSwcDBgy4PDgCQKx6Kv9VIBUMGDDg8mAzAp\
WVWZj8Z8CAAQMuD7YA8PK0ODUfDBgw4PLgCICCal7LAQMGDLg8OAJgRZXnmTgOgAEDBhoGKioqXsCxF8c6HKPAgAEDBgwYMG\
DAgAEDBgwYMOBq+H/zR3EKFLvkLgAAAABJRU5ErkJggg==";

/// The `data:` URL of the bundled agent's icon.
pub closed spec fn sahaa_icon_url() -> Seq<char> {
    ICON_PART_0@ + ICON_PART_1@ + ICON_PART_2@ + ICON_PART_3@ + ICON_PART_4@ + ICON_PART_5@ + ICON_PART_6@ + ICON_PART_7@ + ICON_PART_8@
}

/// Builds the `data:` URL of the bundled agent's icon.
pub fn make_sahaa_icon_url() -> (s: String)
    ensures
        s@ == sahaa_icon_url(),
{
    let mut s = ICON_PART_0.to_owned();
    s.append(ICON_PART_1);
    s.append(ICON_PART_2);
    s.append(ICON_PART_3);
    s.append(ICON_PART_4);
    s.append(ICON_PART_5);
    s.append(ICON_PART_6);
    s.append(ICON_PART_7);
    s.append(ICON_PART_8);
    s
}

/// The bundled icon is exactly the original `data:` URL: its nine parts
/// joined in index order, each once, none swapped or left out.
pub proof fn lemma_sahaa_icon_is_its_parts_in_order()
    ensures
        sahaa_icon_url() == ICON_PART_0@ + ICON_PART_1@ + ICON_PART_2@ + ICON_PART_3@
            + ICON_PART_4@ + ICON_PART_5@ + ICON_PART_6@ + ICON_PART_7@ + ICON_PART_8@,
{
}

} // verus!
